//! The mapping between the JSON that the daemon speaks and the typed model.
//!
//! Decoding never guesses: a required field that is missing, or that is no
//! string, is reported as a mapping error that names the field. Optional
//! fields that are missing are left unset.
use vstd::prelude::*;
use rustc_serialize::json::Json;
use crate::codec::{
    contents, json_array, json_content, json_object, json_string, json_text, keys_ascend,
    member_contents, write_document, MAX_DEPTH,
};
use crate::error::{mapping_error, ErrorKind, FleetError, FleetErrorView};
use crate::json::{items_view, member_from, members_view, JsonValue, JsonView};
use crate::schema::unit::{invalid_state_value, lemma_token_round_trip};
use crate::schema::{
    keys_are_distinct, option_views, Machine, MachinePage, MachinePageView, MachineView, Unit, UnitOption, UnitOptionView,
    UnitPage, UnitPageView, UnitState, UnitStatePage, UnitStatePageView, UnitStateView,
    UnitStates, UnitView,
};
use crate::text::{lemma_first_character_decides, opt_view, str_eq};

verus! {

/// The model of a result: the model of the value, or the model of the error.
pub open spec fn result_view<T: View, E: View>(r: Result<T, E>) -> Result<T::V, E::V> {
    match r {
        Ok(value) => Ok(value@),
        Err(error) => Err(error@),
    }
}

/// The string under `key`, which must be there.
pub open spec fn required_string(object: JsonView, key: Seq<char>) -> Result<
    Seq<char>,
    FleetErrorView,
> {
    match object.string_at(key) {
        Some(text) => Ok(text),
        None => Err(mapping_error(key)),
    }
}

/// The state under `key`, which must be there and be one of the three.
pub open spec fn required_state(object: JsonView, key: Seq<char>) -> Result<
    UnitStates,
    FleetErrorView,
> {
    match required_string(object, key) {
        Ok(word) => UnitStates::decoded(word),
        Err(e) => Err(e),
    }
}

/// The results of decoding every item: all of them in order where each one
/// decodes, and otherwise the error of the first item that does not.
pub open spec fn each_of<T>(
    items: Seq<JsonView>,
    decode: spec_fn(JsonView) -> Result<T, FleetErrorView>,
) -> Result<Seq<T>, FleetErrorView>
    decreases items.len(),
{
    if items.len() == 0 {
        Ok(Seq::empty())
    } else {
        match each_of(items.drop_last(), decode) {
            Err(e) => Err(e),
            Ok(head) => match decode(items.last()) {
                Err(e) => Err(e),
                Ok(item) => Ok(head.push(item)),
            },
        }
    }
}

/// The unit option that a JSON object stands for.
pub open spec fn unit_option_of(json: JsonView) -> Result<UnitOptionView, FleetErrorView> {
    match required_string(json, "name"@) {
        Err(e) => Err(e),
        Ok(name) => match required_string(json, "section"@) {
            Err(e) => Err(e),
            Ok(section) => match required_string(json, "value"@) {
                Err(e) => Err(e),
                Ok(value) => Ok(UnitOptionView { name, section, value }),
            },
        },
    }
}

/// Returns the string found under `key` in a JSON object, if there is one.
pub fn get_string_value<'a>(json_obj: &'a JsonValue, key: &str) -> (r: Option<&'a str>)
    ensures
        match r {
            Some(text) => json_obj@.string_at(key@) == Some(text@),
            None => json_obj@.string_at(key@) is None,
        },
{
    match json_obj.find(key) {
        Some(value) => value.as_string(),
        None => None,
    }
}

/// Returns a copy of the string found under `key`, and a mapping error that
/// names `key` where there is none.
pub fn get_required_string(json_obj: &JsonValue, key: &str) -> (r: Result<String, FleetError>)
    ensures
        match r {
            Ok(text) => required_string(json_obj@, key@) == Ok::<Seq<char>, FleetErrorView>(text@),
            Err(e) => required_string(json_obj@, key@) == Err::<Seq<char>, FleetErrorView>(e@),
        },
{
    match get_string_value(json_obj, key) {
        Some(text) => Ok(text.to_owned()),
        None => Err(FleetError::mapping(key)),
    }
}

/// Decodes one unit option.
pub fn unit_option_from_json(json: &JsonValue) -> (r: Result<UnitOption, FleetError>)
    ensures
        result_view(r) == unit_option_of(json@),
{
    let name = get_required_string(json, "name")?;
    let section = get_required_string(json, "section")?;
    let value = get_required_string(json, "value")?;
    Ok(UnitOption { name, section, value })
}

/// Decodes every item of an array with `decode`, and stops at the first item
/// that does not decode.
fn decode_each<T: View, F: Fn(&JsonValue) -> Result<T, FleetError>>(
    items: &Vec<JsonValue>,
    decode: F,
    Ghost(model): Ghost<spec_fn(JsonView) -> Result<T::V, FleetErrorView>>,
) -> (r: Result<Vec<T>, FleetError>)
    requires
        forall|item: &JsonValue| call_requires(decode, (item,)),
        forall|item: &JsonValue, out: Result<T, FleetError>|
            call_ensures(decode, (item,), out) ==> result_view(out) == model(item@),
    ensures
        match r {
            Ok(values) => each_of(items_view(items@), model) == Ok::<Seq<T::V>, FleetErrorView>(
                values@.map_values(|v: T| v@),
            ),
            Err(e) => each_of(items_view(items@), model) == Err::<Seq<T::V>, FleetErrorView>(e@),
        },
{
    let mut values: Vec<T> = Vec::new();
    let mut i: usize = 0;
    assert(values@.map_values(|v: T| v@) =~= Seq::<T::V>::empty());
    while i < items.len()
        invariant
            i <= items.len(),
            forall|item: &JsonValue| call_requires(decode, (item,)),
            forall|item: &JsonValue, out: Result<T, FleetError>|
                call_ensures(decode, (item,), out) ==> result_view(out) == model(item@),
            each_of(items_view(items@).take(i as int), model) == Ok::<Seq<T::V>, FleetErrorView>(
                values@.map_values(|v: T| v@),
            ),
        decreases items.len() - i,
    {
        let ghost all = items_view(items@);
        proof {
            assert(all.take(i + 1).drop_last() =~= all.take(i as int));
            assert(all.take(i + 1).last() == items@[i as int]@);
        }
        match decode(&items[i]) {
            Ok(value) => {
                let ghost before = values@.map_values(|v: T| v@);
                values.push(value);
                assert(values@.map_values(|v: T| v@) =~= before.push(value@));
            },
            Err(e) => {
                proof {
                    lemma_each_of_error_stays(all, model, i + 1);
                }
                return Err(e);
            },
        }
        i = i + 1;
    }
    assert(items_view(items@).take(i as int) =~= items_view(items@));
    Ok(values)
}

/// An error among the first `n` items is the error of the whole sequence.
proof fn lemma_each_of_error_stays<T>(
    items: Seq<JsonView>,
    decode: spec_fn(JsonView) -> Result<T, FleetErrorView>,
    n: int,
)
    requires
        0 <= n <= items.len(),
        each_of(items.take(n), decode) is Err,
    ensures
        each_of(items, decode) == each_of(items.take(n), decode),
    decreases items.len() - n,
{
    if n < items.len() {
        assert(items.take(n + 1).drop_last() =~= items.take(n));
        lemma_each_of_error_stays(items, decode, n + 1);
    } else {
        assert(items.take(n) =~= items);
    }
}

/// The array under `key`, which must be there.
pub open spec fn required_array(object: JsonView, key: Seq<char>) -> Result<
    Seq<JsonView>,
    FleetErrorView,
> {
    match object.find(key) {
        Some(JsonView::Array(items)) => Ok(items),
        _ => Err(mapping_error(key)),
    }
}

/// The array under `key`; a missing key stands for an empty array, and a
/// value that is no array is an error.
pub open spec fn optional_array(object: JsonView, key: Seq<char>) -> Result<
    Seq<JsonView>,
    FleetErrorView,
> {
    match object.find(key) {
        None => Ok(Seq::empty()),
        Some(JsonView::Array(items)) => Ok(items),
        Some(_) => Err(mapping_error(key)),
    }
}

/// The unit options that the items of an array stand for.
pub open spec fn unit_options_of(items: Seq<JsonView>) -> Result<
    Seq<UnitOptionView>,
    FleetErrorView,
> {
    each_of(items, |item: JsonView| unit_option_of(item))
}

/// The unit that a JSON object stands for. The fields are read in the order
/// `currentState`, `desiredState`, `machineID`, `name`, `options`, and the
/// first one at fault is reported.
pub open spec fn unit_of(json: JsonView) -> Result<UnitView, FleetErrorView> {
    match required_state(json, "currentState"@) {
        Err(e) => Err(e),
        Ok(current_state) => match required_state(json, "desiredState"@) {
            Err(e) => Err(e),
            Ok(desired_state) => match required_string(json, "name"@) {
                Err(e) => Err(e),
                Ok(name) => match required_array(json, "options"@) {
                    Err(e) => Err(e),
                    Ok(items) => match unit_options_of(items) {
                        Err(e) => Err(e),
                        Ok(options) => Ok(
                            UnitView {
                                current_state,
                                desired_state,
                                machine_id: json.string_at("machineID"@),
                                name,
                                options,
                            },
                        ),
                    },
                },
            },
        },
    }
}

/// The unit state that a JSON object stands for. The fields are read in the
/// order `name`, `hash`, `machineID`, `systemdLoadState`,
/// `systemdActiveState`, `systemdSubState`.
pub open spec fn unit_state_of(json: JsonView) -> Result<UnitStateView, FleetErrorView> {
    match required_string(json, "name"@) {
        Err(e) => Err(e),
        Ok(name) => match required_string(json, "hash"@) {
            Err(e) => Err(e),
            Ok(hash) => match required_string(json, "systemdLoadState"@) {
                Err(e) => Err(e),
                Ok(systemd_load_state) => match required_string(json, "systemdActiveState"@) {
                    Err(e) => Err(e),
                    Ok(systemd_active_state) => match required_string(json, "systemdSubState"@) {
                        Err(e) => Err(e),
                        Ok(systemd_sub_state) => Ok(
                            UnitStateView {
                                name,
                                hash,
                                machine_id: json.string_at("machineID"@),
                                systemd_load_state,
                                systemd_active_state,
                                systemd_sub_state,
                            },
                        ),
                    },
                },
            },
        },
    }
}

/// Whether every member of an object holds a string.
pub open spec fn all_strings(members: Seq<(Seq<char>, JsonView)>) -> bool {
    forall|i: int| 0 <= i < members.len() ==> (#[trigger] members[i]).1 is String
}

/// The keys of an object's members, each with the string that it holds.
pub open spec fn string_pairs(members: Seq<(Seq<char>, JsonView)>) -> Seq<(Seq<char>, Seq<char>)> {
    Seq::new(members.len(), |i: int| (members[i].0, members[i].1->String_0))
}

/// Whether no key occurs twice among the members of an object.
pub open spec fn member_keys_are_distinct(members: Seq<(Seq<char>, JsonView)>) -> bool {
    forall|i: int, j: int|
        0 <= i < j < members.len() ==> (#[trigger] members[i]).0 != (#[trigger] members[j]).0
}

/// The metadata of a machine object: none where the `metadata` key is
/// missing, the members of the object under it where each holds a string
/// and no key occurs twice, and an error that names `metadata` otherwise.
pub open spec fn metadata_of(json: JsonView) -> Result<Seq<(Seq<char>, Seq<char>)>, FleetErrorView> {
    match json.find("metadata"@) {
        None => Ok(Seq::empty()),
        Some(JsonView::Object(members)) => if all_strings(members) && member_keys_are_distinct(
            members,
        ) {
            Ok(string_pairs(members))
        } else {
            Err(mapping_error("metadata"@))
        },
        Some(_) => Err(mapping_error("metadata"@)),
    }
}

/// The machine that a JSON object stands for. The fields are read in the
/// order `id`, `metadata`, `primaryIP`.
pub open spec fn machine_of(json: JsonView) -> Result<MachineView, FleetErrorView> {
    match required_string(json, "id"@) {
        Err(e) => Err(e),
        Ok(id) => match metadata_of(json) {
            Err(e) => Err(e),
            Ok(metadata) => match required_string(json, "primaryIP"@) {
                Err(e) => Err(e),
                Ok(primary_ip) => Ok(MachineView { id, metadata, primary_ip }),
            },
        },
    }
}

/// Reads the state found under `key`.
pub fn get_required_state(json_obj: &JsonValue, key: &str) -> (r: Result<UnitStates, FleetError>)
    ensures
        match r {
            Ok(state) => required_state(json_obj@, key@) == Ok::<UnitStates, FleetErrorView>(state),
            Err(e) => required_state(json_obj@, key@) == Err::<UnitStates, FleetErrorView>(e@),
        },
{
    match get_string_value(json_obj, key) {
        Some(word) => UnitStates::from_str(word),
        None => Err(FleetError::mapping(key)),
    }
}

/// Copies an optional string slice.
fn owned(text: Option<&str>) -> (r: Option<String>)
    ensures
        match (text, r) {
            (Some(a), Some(b)) => a@ == b@,
            (None, None) => true,
            _ => false,
        },
{
    match text {
        Some(t) => Some(t.to_owned()),
        None => None,
    }
}

/// Decodes one unit.
pub fn unit_from_json(json: &JsonValue) -> (r: Result<Unit, FleetError>)
    ensures
        result_view(r) == unit_of(json@),
{
    let current_state = get_required_state(json, "currentState")?;
    let desired_state = get_required_state(json, "desiredState")?;
    let machine_id = owned(get_string_value(json, "machineID"));
    let name = get_required_string(json, "name")?;
    let items = match json.find("options") {
        Some(value) => match value.as_array() {
            Some(items) => items,
            None => {
                return Err(FleetError::mapping("options"));
            },
        },
        None => {
            return Err(FleetError::mapping("options"));
        },
    };
    let options = decode_each(
        items,
        unit_option_from_json,
        Ghost(|item: JsonView| unit_option_of(item)),
    )?;
    Ok(Unit { current_state, desired_state, machine_id, name, options })
}

/// Decodes one unit state.
pub fn unit_state_from_json(json: &JsonValue) -> (r: Result<UnitState, FleetError>)
    ensures
        result_view(r) == unit_state_of(json@),
{
    let name = get_required_string(json, "name")?;
    let hash = get_required_string(json, "hash")?;
    let machine_id = owned(get_string_value(json, "machineID"));
    let systemd_load_state = get_required_string(json, "systemdLoadState")?;
    let systemd_active_state = get_required_string(json, "systemdActiveState")?;
    let systemd_sub_state = get_required_string(json, "systemdSubState")?;
    Ok(
        UnitState {
            name,
            hash,
            machine_id,
            systemd_load_state,
            systemd_active_state,
            systemd_sub_state,
        },
    )
}

/// Reads the metadata of a machine object as pairs of key and value. What is
/// returned is a mapping: no key occurs twice in it.
pub fn get_metadata_hashmap(json_obj: &JsonValue) -> (r: Result<Vec<(String, String)>, FleetError>)
    ensures
        match r {
            Ok(pairs) => metadata_of(json_obj@) == Ok::<
                Seq<(Seq<char>, Seq<char>)>,
                FleetErrorView,
            >(pairs@.map_values(|pair: (String, String)| (pair.0@, pair.1@))),
            Err(e) => metadata_of(json_obj@) == Err::<Seq<(Seq<char>, Seq<char>)>, FleetErrorView>(
                e@,
            ),
        },
        r matches Ok(pairs) ==> keys_are_distinct(
            pairs@.map_values(|pair: (String, String)| (pair.0@, pair.1@)),
        ),
{
    let mut metadata: Vec<(String, String)> = Vec::new();
    assert(metadata@.map_values(|pair: (String, String)| (pair.0@, pair.1@)) =~= Seq::empty());
    match json_obj.find("metadata") {
        Some(metadata_json) => match metadata_json.as_object() {
            Some(members) => {
                let ghost model = members_view(members@);
                let mut i: usize = 0;
                while i < members.len()
                    invariant
                        i <= members.len(),
                        model == members_view(members@),
                        json_obj@.find("metadata"@) == Some(JsonView::Object(model)),
                        forall|j: int| 0 <= j < i ==> (#[trigger] model[j]).1 is String,
                        forall|a: int, b: int|
                            0 <= a < b < i ==> (#[trigger] model[a]).0 != (#[trigger] model[b]).0,
                        metadata@.map_values(|pair: (String, String)| (pair.0@, pair.1@))
                            == string_pairs(model).take(i as int),
                    decreases members.len() - i,
                {
                    let mut j: usize = 0;
                    while j < i
                        invariant
                            j <= i < members.len(),
                            model == members_view(members@),
                            json_obj@.find("metadata"@) == Some(JsonView::Object(model)),
                            forall|a: int| 0 <= a < j ==> (#[trigger] model[a]).0 != model[i as int].0,
                        decreases i - j,
                    {
                        if str_eq(members[j].0.as_str(), members[i].0.as_str()) {
                            assert(model[j as int].0 == model[i as int].0);
                            assert(!member_keys_are_distinct(model));
                            return Err(FleetError::mapping("metadata"));
                        }
                        j = j + 1;
                    }
                    match members[i].1.as_string() {
                        Some(text) => {
                            let ghost before = metadata@.map_values(
                                |pair: (String, String)| (pair.0@, pair.1@),
                            );
                            metadata.push((members[i].0.clone(), text.to_owned()));
                            assert(metadata@.map_values(
                                |pair: (String, String)| (pair.0@, pair.1@),
                            ) =~= before.push((members@[i as int].0@, text@)));
                            assert(model[i as int].1 == JsonView::String(text@));
                            assert(string_pairs(model).take(i + 1) =~= string_pairs(model).take(
                                i as int,
                            ).push((members@[i as int].0@, text@)));
                        },
                        None => {
                            assert(!(model[i as int].1 is String));
                            return Err(FleetError::mapping("metadata"));
                        },
                    }
                    i = i + 1;
                }
                assert(string_pairs(model).take(i as int) =~= string_pairs(model));
                proof {
                    lemma_string_pairs_keep_the_keys(model);
                }
                Ok(metadata)
            },
            None => Err(FleetError::mapping("metadata")),
        },
        None => Ok(metadata),
    }
}

/// The pairs made of the members of an object have the keys of the members,
/// so where those are distinct, these are.
pub proof fn lemma_string_pairs_keep_the_keys(members: Seq<(Seq<char>, JsonView)>)
    requires
        member_keys_are_distinct(members),
    ensures
        keys_are_distinct(string_pairs(members)),
{
    assert forall|i: int, j: int| 0 <= i < j < string_pairs(members).len() implies (
    #[trigger] string_pairs(members)[i]).0 != (#[trigger] string_pairs(members)[j]).0 by {
        assert(members[i].0 != members[j].0);
    }
}

/// The metadata of a machine that was decoded is a mapping: no key occurs
/// twice in it.
pub proof fn lemma_decoded_metadata_is_a_mapping(json: JsonView)
    ensures
        metadata_of(json) matches Ok(pairs) ==> keys_are_distinct(pairs),
        machine_of(json) matches Ok(machine) ==> machine.well_formed(),
{
    match json.find("metadata"@) {
        Some(JsonView::Object(members)) => {
            if member_keys_are_distinct(members) {
                lemma_string_pairs_keep_the_keys(members);
            }
        },
        _ => {},
    }
}

/// The machines of a page that was decoded are all well formed.
pub proof fn lemma_decoded_machines_are_well_formed(items: Seq<JsonView>)
    ensures
        each_of(items, |item: JsonView| machine_of(item)) matches Ok(machines) ==> forall|i: int|
            0 <= i < machines.len() ==> (#[trigger] machines[i]).well_formed(),
    decreases items.len(),
{
    if items.len() > 0 {
        lemma_decoded_machines_are_well_formed(items.drop_last());
        lemma_decoded_metadata_is_a_mapping(items.last());
    }
}

/// Decodes one machine.
pub fn machine_from_json(json: &JsonValue) -> (r: Result<Machine, FleetError>)
    ensures
        result_view(r) == machine_of(json@),
        r matches Ok(machine) ==> machine@.well_formed(),
{
    let id = get_required_string(json, "id")?;
    let metadata = get_metadata_hashmap(json)?;
    let primary_ip = get_required_string(json, "primaryIP")?;
    Ok(Machine { id, metadata, primary_ip })
}

/// The items of the collection that an envelope holds under `key`, each
/// decoded with `decode`. A missing key stands for an empty collection.
pub open spec fn collection_of<T>(
    envelope: JsonView,
    key: Seq<char>,
    decode: spec_fn(JsonView) -> Result<T, FleetErrorView>,
) -> Result<Seq<T>, FleetErrorView> {
    match optional_array(envelope, key) {
        Err(e) => Err(e),
        Ok(items) => each_of(items, decode),
    }
}

/// The token for the next page that an envelope holds: the string under
/// `nextPageToken`, unless it is missing, empty or no string.
pub open spec fn next_page_token_of(envelope: JsonView) -> Option<Seq<char>> {
    match envelope.string_at("nextPageToken"@) {
        Some(token) => if token.len() == 0 {
            None
        } else {
            Some(token)
        },
        None => None,
    }
}

/// The page of units that an envelope stands for.
pub open spec fn unit_page_of(envelope: JsonView) -> Result<UnitPageView, FleetErrorView> {
    match collection_of(envelope, "units"@, |item: JsonView| unit_of(item)) {
        Err(e) => Err(e),
        Ok(units) => Ok(UnitPageView { units, next_page_token: next_page_token_of(envelope) }),
    }
}

/// The page of unit states that an envelope stands for.
pub open spec fn unit_state_page_of(envelope: JsonView) -> Result<
    UnitStatePageView,
    FleetErrorView,
> {
    match collection_of(envelope, "states"@, |item: JsonView| unit_state_of(item)) {
        Err(e) => Err(e),
        Ok(states) => Ok(
            UnitStatePageView { states, next_page_token: next_page_token_of(envelope) },
        ),
    }
}

/// The page of machines that an envelope stands for.
pub open spec fn machine_page_of(envelope: JsonView) -> Result<MachinePageView, FleetErrorView> {
    match collection_of(envelope, "machines"@, |item: JsonView| machine_of(item)) {
        Err(e) => Err(e),
        Ok(machines) => Ok(
            MachinePageView { machines, next_page_token: next_page_token_of(envelope) },
        ),
    }
}

/// Decodes the collection that an envelope holds under `key`.
fn decode_collection<T: View, F: Fn(&JsonValue) -> Result<T, FleetError>>(
    envelope: &JsonValue,
    key: &str,
    decode: F,
    Ghost(model): Ghost<spec_fn(JsonView) -> Result<T::V, FleetErrorView>>,
) -> (r: Result<Vec<T>, FleetError>)
    requires
        forall|item: &JsonValue| call_requires(decode, (item,)),
        forall|item: &JsonValue, out: Result<T, FleetError>|
            call_ensures(decode, (item,), out) ==> result_view(out) == model(item@),
    ensures
        match r {
            Ok(values) => collection_of(envelope@, key@, model) == Ok::<Seq<T::V>, FleetErrorView>(
                values@.map_values(|v: T| v@),
            ),
            Err(e) => collection_of(envelope@, key@, model) == Err::<Seq<T::V>, FleetErrorView>(
                e@,
            ),
        },
{
    match envelope.find(key) {
        None => {
            let values: Vec<T> = Vec::new();
            assert(values@.map_values(|v: T| v@) =~= Seq::<T::V>::empty());
            Ok(values)
        },
        Some(value) => match value.as_array() {
            Some(items) => decode_each(items, decode, Ghost(model)),
            None => Err(FleetError::mapping(key)),
        },
    }
}

/// Reads the token for the next page from an envelope.
pub fn next_page_token_from_json(json: &JsonValue) -> (r: Option<String>)
    ensures
        opt_view(r) == next_page_token_of(json@),
{
    match get_string_value(json, "nextPageToken") {
        Some(token) => {
            if token.is_empty() {
                None
            } else {
                Some(token.to_owned())
            }
        },
        None => None,
    }
}

/// Decodes one page of units.
pub fn unit_page_from_json(json: &JsonValue) -> (r: Result<UnitPage, FleetError>)
    ensures
        result_view(r) == unit_page_of(json@),
{
    let units = decode_collection(
        json,
        "units",
        unit_from_json,
        Ghost(|item: JsonView| unit_of(item)),
    )?;
    Ok(UnitPage { units, next_page_token: next_page_token_from_json(json) })
}

/// Decodes one page of unit states.
pub fn unit_state_page_from_json(json: &JsonValue) -> (r: Result<UnitStatePage, FleetError>)
    ensures
        result_view(r) == unit_state_page_of(json@),
{
    let states = decode_collection(
        json,
        "states",
        unit_state_from_json,
        Ghost(|item: JsonView| unit_state_of(item)),
    )?;
    Ok(UnitStatePage { states, next_page_token: next_page_token_from_json(json) })
}

/// Decodes one page of machines.
pub fn machine_page_from_json(json: &JsonValue) -> (r: Result<MachinePage, FleetError>)
    ensures
        result_view(r) == machine_page_of(json@),
        r matches Ok(page) ==> forall|i: int|
            0 <= i < page@.machines.len() ==> (#[trigger] page@.machines[i]).well_formed(),
{
    proof {
        if optional_array(json@, "machines"@) is Ok {
            lemma_decoded_machines_are_well_formed(optional_array(json@, "machines"@)->Ok_0);
        }
    }
    let machines = decode_collection(
        json,
        "machines",
        machine_from_json,
        Ghost(|item: JsonView| machine_of(item)),
    )?;
    Ok(MachinePage { machines, next_page_token: next_page_token_from_json(json) })
}

/// The JSON object that a unit option is written as.
pub open spec fn unit_option_json(option: UnitOptionView) -> JsonView {
    JsonView::Object(
        seq![
            ("name"@, JsonView::String(option.name)),
            ("section"@, JsonView::String(option.section)),
            ("value"@, JsonView::String(option.value)),
        ],
    )
}

/// The body of a request that creates a unit: the desired state as its wire
/// word, and every option in order.
pub open spec fn create_body(desired_state: UnitStates, options: Seq<UnitOptionView>) -> JsonView {
    JsonView::Object(
        seq![
            ("desiredState"@, JsonView::String(desired_state.token())),
            (
                "options"@,
                JsonView::Array(options.map_values(|o: UnitOptionView| unit_option_json(o))),
            ),
        ],
    )
}

/// The body of a request that modifies a unit: the desired state alone.
pub open spec fn modify_body(desired_state: UnitStates) -> JsonView {
    JsonView::Object(seq![("desiredState"@, JsonView::String(desired_state.token()))])
}

/// A request body nests three levels at most and holds no float, so it can
/// be printed.
pub proof fn lemma_bodies_can_be_printed(desired_state: UnitStates, options: Seq<UnitOptionView>)
    ensures
        create_body(desired_state, options).nests_within(MAX_DEPTH as nat),
        create_body(desired_state, options).float_free(),
        modify_body(desired_state).nests_within(MAX_DEPTH as nat),
        modify_body(desired_state).float_free(),
{
    reveal_with_fuel(JsonView::nests_within, 4);
    reveal_with_fuel(JsonView::float_free, 4);
    let items = options.map_values(|o: UnitOptionView| unit_option_json(o));
    assert forall|i: int| 0 <= i < items.len() implies (#[trigger] items[i]).nests_within(
        (MAX_DEPTH - 2) as nat,
    ) && items[i].float_free() by {
        assert(items[i] == unit_option_json(options[i]));
    }
}

/// The keys of a unit option stand in ascending order.
proof fn lemma_option_keys_ascend(option: UnitOptionView)
    ensures
        keys_ascend(unit_option_json(option)->Object_0),
{
    reveal_strlit("name");
    reveal_strlit("section");
    reveal_strlit("value");
    lemma_first_character_decides("name"@, "section"@);
    lemma_first_character_decides("name"@, "value"@);
    lemma_first_character_decides("section"@, "value"@);
}

/// The keys of a create body stand in ascending order.
proof fn lemma_body_keys_ascend(desired_state: UnitStates, options: Seq<UnitOptionView>)
    ensures
        keys_ascend(create_body(desired_state, options)->Object_0),
        keys_ascend(modify_body(desired_state)->Object_0),
{
    reveal_strlit("desiredState");
    reveal_strlit("options");
    lemma_first_character_decides("desiredState"@, "options"@);
}

impl UnitOption {
    /// The option as the JSON object that requests carry.
    pub fn to_json(&self) -> (r: Json)
        ensures
            json_content(r) == unit_option_json(self@),
    {
        let mut members: Vec<(String, Json)> = Vec::new();
        members.push(("name".to_owned(), json_string(self.name.as_str())));
        members.push(("section".to_owned(), json_string(self.section.as_str())));
        members.push(("value".to_owned(), json_string(self.value.as_str())));
        proof {
            assert(member_contents(members@) =~= unit_option_json(self@)->Object_0);
            lemma_option_keys_ascend(self@);
        }
        json_object(members)
    }
}

/// The body of a request that creates a unit.
#[allow(non_snake_case)]
#[derive(Debug, Clone, PartialEq, Eq)]
pub struct CreateUnit {
    /// The state that the unit is to reach.
    pub desiredState: UnitStates,
    /// The lines of the unit file.
    pub options: Vec<UnitOption>,
}

/// The body of a request that modifies a unit.
#[allow(non_snake_case)]
#[derive(Debug, Clone, Copy, PartialEq, Eq)]
pub struct ModifyUnit {
    /// The state that the unit is to reach.
    pub desiredState: UnitStates,
}

impl CreateUnit {
    /// The JSON value that the body stands for.
    pub open spec fn body(&self) -> JsonView {
        create_body(self.desiredState, option_views(self.options@))
    }

    /// The body as a JSON value.
    pub fn to_json(&self) -> (r: Json)
        ensures
            json_content(r) == self.body(),
    {
        let ghost wanted = option_views(self.options@).map_values(
            |o: UnitOptionView| unit_option_json(o),
        );
        let mut items: Vec<Json> = Vec::new();
        let mut i: usize = 0;
        while i < self.options.len()
            invariant
                i <= self.options.len(),
                items@.len() == i,
                wanted == option_views(self.options@).map_values(
                    |o: UnitOptionView| unit_option_json(o),
                ),
                forall|j: int| 0 <= j < i ==> json_content(#[trigger] items@[j]) == wanted[j],
            decreases self.options.len() - i,
        {
            items.push(self.options[i].to_json());
            i = i + 1;
        }
        assert(contents(items@) =~= wanted);
        let mut members: Vec<(String, Json)> = Vec::new();
        members.push(("desiredState".to_owned(), self.desiredState.to_json()));
        members.push(("options".to_owned(), json_array(items)));
        proof {
            assert(member_contents(members@) =~= self.body()->Object_0);
            lemma_body_keys_ascend(self.desiredState, option_views(self.options@));
        }
        json_object(members)
    }

    /// The body as the text that is sent.
    pub fn encode(&self) -> (r: String)
        ensures
            r@ == json_text(self.body()),
    {
        let value = self.to_json();
        proof {
            lemma_bodies_can_be_printed(self.desiredState, option_views(self.options@));
        }
        write_document(&value)
    }
}

impl ModifyUnit {
    /// The JSON value that the body stands for.
    pub open spec fn body(&self) -> JsonView {
        modify_body(self.desiredState)
    }

    /// The body as a JSON value.
    pub fn to_json(&self) -> (r: Json)
        ensures
            json_content(r) == self.body(),
    {
        let mut members: Vec<(String, Json)> = Vec::new();
        members.push(("desiredState".to_owned(), self.desiredState.to_json()));
        proof {
            assert(member_contents(members@) =~= self.body()->Object_0);
            lemma_body_keys_ascend(self.desiredState, Seq::empty());
        }
        json_object(members)
    }

    /// The body as the text that is sent.
    pub fn encode(&self) -> (r: String)
        ensures
            r@ == json_text(self.body()),
    {
        let value = self.to_json();
        proof {
            lemma_bodies_can_be_printed(self.desiredState, Seq::empty());
        }
        write_document(&value)
    }
}

/// An option that is written as JSON is read back as itself.
pub proof fn lemma_option_round_trip(option: UnitOptionView)
    ensures
        unit_option_of(unit_option_json(option)) == Ok::<UnitOptionView, FleetErrorView>(option),
{
    reveal_strlit("name");
    reveal_strlit("section");
    reveal_strlit("value");
    reveal_with_fuel(member_from, 4);
    assert("name"@.len() == 4);
    assert("section"@.len() == 7);
    assert("value"@.len() == 5);
}

/// Options that are written as JSON are read back as themselves, one for one
/// and in order.
pub proof fn lemma_options_round_trip(options: Seq<UnitOptionView>)
    ensures
        unit_options_of(options.map_values(|o: UnitOptionView| unit_option_json(o))) == Ok::<
            Seq<UnitOptionView>,
            FleetErrorView,
        >(options),
    decreases options.len(),
{
    let items = options.map_values(|o: UnitOptionView| unit_option_json(o));
    let decode = |item: JsonView| unit_option_of(item);
    if options.len() == 0 {
        assert(each_of(items, decode)->Ok_0 =~= options);
    } else {
        lemma_options_round_trip(options.drop_last());
        assert(items.drop_last() =~= options.drop_last().map_values(
            |o: UnitOptionView| unit_option_json(o),
        ));
        lemma_option_round_trip(options.last());
        assert(items.last() == unit_option_json(options.last()));
        assert(options.drop_last().push(options.last()) =~= options);
    }
}

/// Round trip of the create path: a unit object that carries the
/// `desiredState` and the `options` of a create body, beside a name and a
/// current state of the daemon's own, decodes to a unit with the same desired
/// state and with the same options, equal one for one and in order.
pub proof fn lemma_created_unit_round_trip(
    desired_state: UnitStates,
    options: Seq<UnitOptionView>,
    echo: JsonView,
)
    requires
        echo.find("desiredState"@) == create_body(desired_state, options).find("desiredState"@),
        echo.find("options"@) == create_body(desired_state, options).find("options"@),
        required_state(echo, "currentState"@) is Ok,
        required_string(echo, "name"@) is Ok,
    ensures
        unit_of(echo) is Ok,
        unit_of(echo)->Ok_0.desired_state == desired_state,
        unit_of(echo)->Ok_0.options == options,
{
    reveal_strlit("desiredState");
    reveal_strlit("options");
    reveal_with_fuel(member_from, 3);
    assert("desiredState"@.len() == 12);
    assert("options"@.len() == 7);
    lemma_token_round_trip(desired_state);
    lemma_options_round_trip(options);
}

/// A unit object without a `machineID` decodes exactly when its required
/// fields do, and the unit then has no machine.
pub proof fn lemma_unit_without_machine(json: JsonView)
    requires
        json.find("machineID"@) is None,
    ensures
        unit_of(json) is Ok <==> {
            &&& required_state(json, "currentState"@) is Ok
            &&& required_state(json, "desiredState"@) is Ok
            &&& required_string(json, "name"@) is Ok
            &&& required_array(json, "options"@) is Ok
            &&& unit_options_of(required_array(json, "options"@)->Ok_0) is Ok
        },
        unit_of(json) matches Ok(unit) ==> unit.machine_id is None,
{
}

/// A unit state object without a `machineID` decodes exactly when its
/// required fields do, and the state then has no machine.
pub proof fn lemma_unit_state_without_machine(json: JsonView)
    requires
        json.find("machineID"@) is None,
    ensures
        unit_state_of(json) is Ok <==> {
            &&& required_string(json, "name"@) is Ok
            &&& required_string(json, "hash"@) is Ok
            &&& required_string(json, "systemdLoadState"@) is Ok
            &&& required_string(json, "systemdActiveState"@) is Ok
            &&& required_string(json, "systemdSubState"@) is Ok
        },
        unit_state_of(json) matches Ok(state) ==> state.machine_id is None,
{
}

/// A unit object whose current state is none of the three known words is
/// refused with the mapping error that names `invalid-state-value`.
pub proof fn lemma_unknown_current_state(json: JsonView, word: Seq<char>)
    requires
        json.string_at("currentState"@) == Some(word),
        UnitStates::of_token(word) is None,
    ensures
        unit_of(json) == Err::<UnitView, FleetErrorView>(mapping_error(invalid_state_value())),
{
}

/// A machine object without `metadata` decodes exactly when its required
/// fields do, and the machine then has no metadata.
pub proof fn lemma_machine_without_metadata(json: JsonView)
    requires
        json.find("metadata"@) is None,
    ensures
        machine_of(json) is Ok <==> {
            &&& required_string(json, "id"@) is Ok
            &&& required_string(json, "primaryIP"@) is Ok
        },
        machine_of(json) matches Ok(machine) ==> machine.metadata.len() == 0,
{
}

/// Where every item fails with a mapping error only, so does the sequence.
pub proof fn lemma_each_of_fails_as_its_items<T>(
    items: Seq<JsonView>,
    decode: spec_fn(JsonView) -> Result<T, FleetErrorView>,
)
    requires
        forall|item: JsonView| #[trigger] decode(item) matches Err(e) ==> e.kind == ErrorKind::Mapping,
    ensures
        each_of(items, decode) matches Err(e) ==> e.kind == ErrorKind::Mapping,
    decreases items.len(),
{
    if items.len() > 0 {
        lemma_each_of_fails_as_its_items(items.drop_last(), decode);
    }
}

/// Decoding a unit fails with mapping errors and with no others.
pub proof fn lemma_unit_fails_with_mapping_errors(json: JsonView)
    ensures
        unit_of(json) matches Err(e) ==> e.kind == ErrorKind::Mapping,
{
    if required_array(json, "options"@) is Ok {
        lemma_each_of_fails_as_its_items(
            required_array(json, "options"@)->Ok_0,
            |item: JsonView| unit_option_of(item),
        );
    }
}

/// Decoding fails with mapping errors and with no others: what the daemon
/// sent is at fault, not the request and not the network.
pub proof fn lemma_decoding_fails_with_mapping_errors(json: JsonView)
    ensures
        unit_option_of(json) matches Err(e) ==> e.kind == ErrorKind::Mapping,
        unit_of(json) matches Err(e) ==> e.kind == ErrorKind::Mapping,
        unit_state_of(json) matches Err(e) ==> e.kind == ErrorKind::Mapping,
        machine_of(json) matches Err(e) ==> e.kind == ErrorKind::Mapping,
        unit_page_of(json) matches Err(e) ==> e.kind == ErrorKind::Mapping,
        unit_state_page_of(json) matches Err(e) ==> e.kind == ErrorKind::Mapping,
        machine_page_of(json) matches Err(e) ==> e.kind == ErrorKind::Mapping,
{
    lemma_unit_fails_with_mapping_errors(json);
    assert forall|item: JsonView| #[trigger] unit_of(item) is Err implies unit_of(
        item,
    )->Err_0.kind == ErrorKind::Mapping by {
        lemma_unit_fails_with_mapping_errors(item);
    }
    if optional_array(json, "units"@) is Ok {
        lemma_each_of_fails_as_its_items(
            optional_array(json, "units"@)->Ok_0,
            |item: JsonView| unit_of(item),
        );
    }
    if optional_array(json, "states"@) is Ok {
        lemma_each_of_fails_as_its_items(
            optional_array(json, "states"@)->Ok_0,
            |item: JsonView| unit_state_of(item),
        );
    }
    if optional_array(json, "machines"@) is Ok {
        lemma_each_of_fails_as_its_items(
            optional_array(json, "machines"@)->Ok_0,
            |item: JsonView| machine_of(item),
        );
    }
}

} // verus!
