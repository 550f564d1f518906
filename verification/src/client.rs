//! The client: one method for each operation of the fleet API.
use vstd::prelude::*;
use crate::codec::{json_text, parse, parsed};
use crate::error::{
    api_error, config_error, error_message, mapping_error, transport_error, ErrorKind,
    FleetError, FleetErrorView,
};
use crate::json::{JsonValue, JsonView};
use crate::schema::{
    option_views, MachinePage, Unit, UnitOption, UnitOptionView, UnitPage, UnitStatePage,
    UnitStates,
};
use crate::serialize::{
    create_body, lemma_decoding_fails_with_mapping_errors, machine_page_from_json,
    machine_page_of, modify_body, result_view, unit_from_json, unit_of, unit_page_from_json,
    unit_page_of, unit_state_page_from_json, unit_state_page_of, CreateUnit, ModifyUnit,
};
use crate::text::{ends_with_char, ends_with_slash, opt_str_view, opt_view};
use crate::query::{with_optional_pair, Query};
use crate::transport::{
    bare_request, body_request, Method, Reply, Request, RequestView, Response, ResponseView,
};
use crate::urls::{form_text, lemma_plain_text_is_unchanged, normalize, root_form};

verus! {

/// The root of the API under a root endpoint in its normal form:
/// `fleet/v1` behind a slash.
pub open spec fn base_url(normal: Seq<char>) -> Seq<char> {
    if ends_with_char(normal, '/') {
        normal + "fleet/v1"@
    } else {
        normal + "/"@ + "fleet/v1"@
    }
}

/// The keys that the client puts into a query are written as they are: the
/// encoding of a query leaves their letters unchanged.
pub proof fn lemma_query_keys_are_unchanged()
    ensures
        form_text("machineID"@) == "machineID"@,
        form_text("unitName"@) == "unitName"@,
        form_text("nextPageToken"@) == "nextPageToken"@,
{
    reveal_strlit("machineID");
    reveal_strlit("unitName");
    reveal_strlit("nextPageToken");
    lemma_plain_text_is_unchanged("machineID"@);
    lemma_plain_text_is_unchanged("unitName"@);
    lemma_plain_text_is_unchanged("nextPageToken"@);
}

/// The URL of the unit called `name`. The name is taken as it is.
pub open spec fn unit_url(root: Seq<char>, name: Seq<char>) -> Seq<char> {
    root + "/units/"@ + name
}

/// The URL of one page of a collection: the token of the page before it,
/// where there is one, goes into the query as `nextPageToken`.
pub open spec fn page_url(root: Seq<char>, path: Seq<char>, token: Option<Seq<char>>) -> Seq<char> {
    root + path + with_optional_pair(Seq::empty(), "nextPageToken"@, token)
}

/// The URL of one page of unit states. The filters come first, the machine
/// before the unit, and the token last.
pub open spec fn states_url(
    root: Seq<char>,
    machine_id: Option<Seq<char>>,
    unit_name: Option<Seq<char>>,
    token: Option<Seq<char>>,
) -> Seq<char> {
    root + "/state"@ + with_optional_pair(
        with_optional_pair(
            with_optional_pair(Seq::empty(), "machineID"@, machine_id),
            "unitName"@,
            unit_name,
        ),
        "nextPageToken"@,
        token,
    )
}

/// The request that creates a unit.
pub open spec fn create_unit_request(
    root: Seq<char>,
    name: Seq<char>,
    desired_state: UnitStates,
    options: Seq<UnitOptionView>,
) -> RequestView {
    body_request(Method::Put, unit_url(root, name), json_text(create_body(desired_state, options)))
}

/// The request that changes the desired state of a unit.
pub open spec fn modify_unit_request(
    root: Seq<char>,
    name: Seq<char>,
    desired_state: UnitStates,
) -> RequestView {
    body_request(Method::Put, unit_url(root, name), json_text(modify_body(desired_state)))
}

/// The request that destroys a unit.
pub open spec fn destroy_unit_request(root: Seq<char>, name: Seq<char>) -> RequestView {
    bare_request(Method::Delete, unit_url(root, name))
}

/// The request that reads a unit.
pub open spec fn get_unit_request(root: Seq<char>, name: Seq<char>) -> RequestView {
    bare_request(Method::Get, unit_url(root, name))
}

/// The request that reads one page of units.
pub open spec fn list_units_request(root: Seq<char>, token: Option<Seq<char>>) -> RequestView {
    bare_request(Method::Get, page_url(root, "/units"@, token))
}

/// The request that reads one page of machines.
pub open spec fn list_machines_request(root: Seq<char>, token: Option<Seq<char>>) -> RequestView {
    bare_request(Method::Get, page_url(root, "/machines"@, token))
}

/// The request that reads one page of unit states.
pub open spec fn list_unit_states_request(
    root: Seq<char>,
    machine_id: Option<Seq<char>>,
    unit_name: Option<Seq<char>>,
    token: Option<Seq<char>>,
) -> RequestView {
    bare_request(Method::Get, states_url(root, machine_id, unit_name, token))
}

/// The error for a response whose status the operation does not accept: the
/// status, and the message that its body yields.
pub open spec fn rejection(response: ResponseView) -> FleetErrorView {
    api_error(response.status, error_message(parsed(response.body)))
}

/// The error for an accepted response whose body is no JSON document.
pub open spec fn unreadable_body() -> FleetErrorView {
    mapping_error("body"@)
}

/// The outcome of creating or modifying a unit: done on status 201 or 204.
pub open spec fn written(reply: Reply) -> Result<(), FleetErrorView> {
    match reply {
        Err(description) => Err(transport_error(description)),
        Ok(response) => if response.status == 201 || response.status == 204 {
            Ok(())
        } else {
            Err(rejection(response))
        },
    }
}

/// The outcome of destroying a unit: done on status 204 or 200.
pub open spec fn destroyed(reply: Reply) -> Result<(), FleetErrorView> {
    match reply {
        Err(description) => Err(transport_error(description)),
        Ok(response) => if response.status == 204 || response.status == 200 {
            Ok(())
        } else {
            Err(rejection(response))
        },
    }
}

/// The outcome of a read: on status 200 what `decode` makes of the body.
pub open spec fn fetched<T>(
    reply: Reply,
    decode: spec_fn(JsonView) -> Result<T, FleetErrorView>,
) -> Result<T, FleetErrorView> {
    match reply {
        Err(description) => Err(transport_error(description)),
        Ok(response) => if response.status == 200 {
            match parsed(response.body) {
                Some(document) => decode(document),
                None => Err(unreadable_body()),
            }
        } else {
            Err(rejection(response))
        },
    }
}

/// Decides on the reply to a request that creates or modifies a unit.
pub fn accept_write(reply: Result<Response, String>) -> (r: Result<(), FleetError>)
    ensures
        result_view(r) == written(result_view(reply)),
{
    match reply {
        Err(description) => Err(FleetError::from_hyper_error(description.as_str())),
        Ok(response) => {
            if response.status == 201 || response.status == 204 {
                Ok(())
            } else {
                Err(FleetError::from_hyper_response(response.status, response.body.as_slice()))
            }
        },
    }
}

/// Decides on the reply to a request that destroys a unit.
pub fn accept_destroy(reply: Result<Response, String>) -> (r: Result<(), FleetError>)
    ensures
        result_view(r) == destroyed(result_view(reply)),
{
    match reply {
        Err(description) => Err(FleetError::from_hyper_error(description.as_str())),
        Ok(response) => {
            if response.status == 204 || response.status == 200 {
                Ok(())
            } else {
                Err(FleetError::from_hyper_response(response.status, response.body.as_slice()))
            }
        },
    }
}

/// Decides on the reply to a read, and decodes the body with `decode`.
fn accept_read<T: View, F: Fn(&JsonValue) -> Result<T, FleetError>>(
    reply: Result<Response, String>,
    decode: F,
    Ghost(model): Ghost<spec_fn(JsonView) -> Result<T::V, FleetErrorView>>,
) -> (r: Result<T, FleetError>)
    requires
        forall|document: &JsonValue| call_requires(decode, (document,)),
        forall|document: &JsonValue, out: Result<T, FleetError>|
            call_ensures(decode, (document,), out) ==> result_view(out) == model(document@),
    ensures
        result_view(r) == fetched(result_view(reply), model),
{
    match reply {
        Err(description) => Err(FleetError::from_hyper_error(description.as_str())),
        Ok(response) => {
            if response.status == 200 {
                match parse(response.body.as_slice()) {
                    Some(document) => decode(&document),
                    None => Err(FleetError::mapping("body")),
                }
            } else {
                Err(FleetError::from_hyper_response(response.status, response.body.as_slice()))
            }
        },
    }
}

/// Decides on the reply to a request for one unit.
pub fn accept_unit(reply: Result<Response, String>) -> (r: Result<Unit, FleetError>)
    ensures
        result_view(r) == fetched(result_view(reply), |document: JsonView| unit_of(document)),
{
    accept_read(reply, unit_from_json, Ghost(|document: JsonView| unit_of(document)))
}

/// Decides on the reply to a request for a page of units.
pub fn accept_unit_page(reply: Result<Response, String>) -> (r: Result<UnitPage, FleetError>)
    ensures
        result_view(r) == fetched(result_view(reply), |document: JsonView| unit_page_of(document)),
{
    accept_read(reply, unit_page_from_json, Ghost(|document: JsonView| unit_page_of(document)))
}

/// Decides on the reply to a request for a page of machines.
pub fn accept_machine_page(reply: Result<Response, String>) -> (r: Result<MachinePage, FleetError>)
    ensures
        result_view(r) == fetched(
            result_view(reply),
            |document: JsonView| machine_page_of(document),
        ),
{
    accept_read(
        reply,
        machine_page_from_json,
        Ghost(|document: JsonView| machine_page_of(document)),
    )
}

/// Decides on the reply to a request for a page of unit states.
pub fn accept_unit_state_page(reply: Result<Response, String>) -> (r: Result<
    UnitStatePage,
    FleetError,
>)
    ensures
        result_view(r) == fetched(
            result_view(reply),
            |document: JsonView| unit_state_page_of(document),
        ),
{
    accept_read(
        reply,
        unit_state_page_from_json,
        Ghost(|document: JsonView| unit_state_page_of(document)),
    )
}

/// Whether `reply` is what `transport` answered to a request that reads as
/// `wanted`.
pub open spec fn exchanged<T: Fn(&Request) -> Result<Response, String>>(
    transport: T,
    wanted: RequestView,
    reply: Reply,
) -> bool {
    exists|request: Request, raw: Result<Response, String>|
        request@ == wanted && #[trigger] call_ensures(transport, (&request,), raw) && result_view(
            raw,
        ) == reply
}

/// Whether `transport` can be handed any request at all. A function or a
/// closure that states no `requires` of its own can.
pub open spec fn takes_every_request<T: Fn(&Request) -> Result<Response, String>>(
    transport: T,
) -> bool {
    forall|request: &Request| call_requires(transport, (request,))
}

/// An API client for fleet.
///
/// Provides methods for basic CRUD operations on fleet units as well as for listing machines in the
/// fleet cluster.
///
/// # Transport
///
/// The client does not open connections. It is given a transport when it is made: a function
/// that sends one request and returns the response, or the description of why there is none.
/// Every method hands exactly one request to the transport and decides on what comes back.
///
/// # Pagination
///
/// Methods that return a collection of resources are paginated. On a successful API call, a
/// special "page" type will be returned. This type contains a vector of values of that resource
/// type and an optional "next page token." If this token is present, it indicates that at least
/// one additional page of resources is available. To make another call for the next page, pass
/// this token in to the API method. When the token value is `None`, the last page has been
/// reached.
///
/// # Failures
///
/// Each method involves making an HTTP request to the fleet API and can possibly result in an
/// error. Errors may occur either due to problems with the HTTP request itself (such as network
/// errors), because the fleet API returned an explicit error code and message, or because the
/// API returned a body that does not hold what the method expects.
pub struct Client<T: Fn(&Request) -> Result<Response, String>> {
    root_url: String,
    transport: T,
}

impl<T: Fn(&Request) -> Result<Response, String>> Client<T> {
    /// The root of the API: every request goes to a URL below it.
    pub closed spec fn root(&self) -> Seq<char> {
        self.root_url@
    }

    /// The transport that the client was made with.
    pub closed spec fn transport(&self) -> T {
        self.transport
    }

    /// Constructs a new `Client`.
    ///
    /// `root_url` is a network scheme, hostname or IP address, and optional port where fleetd is
    /// running. This value should not include a path. `transport` sends the requests.
    ///
    /// Nothing is sent at construction: `new` asks nothing of `transport`, and so has no leave
    /// to call it.
    ///
    /// # Failures
    ///
    /// If the value provided for `root_url` cannot be parsed, an error of the kind `Config` is
    /// returned, with the description of the parse error as its message.
    pub fn new(root_url: &str, transport: T) -> (r: Result<Client<T>, FleetError>)
        ensures
            match root_form(root_url@) {
                Ok(normal) => r matches Ok(client) && client.root() == base_url(normal)
                    && client.transport() == transport,
                Err(description) => r matches Err(e) && e@ == config_error(description),
            },
    {
        match normalize(root_url) {
            Ok(normal) => {
                let root = if ends_with_slash(normal.as_str()) {
                    normal.concat("fleet/v1")
                } else {
                    normal.concat("/").concat("fleet/v1")
                };
                Ok(Client { root_url: root, transport })
            },
            Err(description) => Err(FleetError::config(description.as_str())),
        }
    }

    /// The root of the API, as [`Client::root`] has it.
    pub fn root_url(&self) -> (r: &str)
        ensures
            r@ == self.root(),
    {
        self.root_url.as_str()
    }

    /// The URL of `path` below the root of the API.
    pub fn build_url(&self, path: &str) -> (r: String)
        ensures
            r@ == self.root() + path@,
    {
        self.root_url.clone().concat(path)
    }

    /// The request that creates a unit.
    pub fn request_to_create_unit(
        &self,
        name: &str,
        desired_state: UnitStates,
        options: Vec<UnitOption>,
    ) -> (r: Request)
        ensures
            r@ == create_unit_request(self.root(), name@, desired_state, option_views(options@)),
    {
        let serializer = CreateUnit { desiredState: desired_state, options };
        let url = self.build_url("/units/").concat(name);
        let body = serializer.encode();
        Request::with_body(Method::Put, url, body)
    }

    /// The request that changes the desired state of a unit.
    pub fn request_to_modify_unit(&self, name: &str, desired_state: UnitStates) -> (r: Request)
        ensures
            r@ == modify_unit_request(self.root(), name@, desired_state),
    {
        let serializer = ModifyUnit { desiredState: desired_state };
        let url = self.build_url("/units/").concat(name);
        let body = serializer.encode();
        Request::with_body(Method::Put, url, body)
    }

    /// The request that destroys a unit.
    pub fn request_to_destroy_unit(&self, name: &str) -> (r: Request)
        ensures
            r@ == destroy_unit_request(self.root(), name@),
    {
        Request::new(Method::Delete, self.build_url("/units/").concat(name))
    }

    /// The request that reads a unit.
    pub fn request_to_get_unit(&self, name: &str) -> (r: Request)
        ensures
            r@ == get_unit_request(self.root(), name@),
    {
        Request::new(Method::Get, self.build_url("/units/").concat(name))
    }

    /// The request that reads one page of units.
    pub fn request_to_list_units(&self, next_page_token: Option<&str>) -> (r: Request)
        ensures
            r@ == list_units_request(self.root(), opt_str_view(next_page_token)),
    {
        let query = Query::new().optional_pair("nextPageToken", next_page_token);
        Request::new(Method::Get, self.build_url("/units").concat(query.as_str()))
    }

    /// The request that reads one page of machines.
    pub fn request_to_list_machines(&self, next_page_token: Option<&str>) -> (r: Request)
        ensures
            r@ == list_machines_request(self.root(), opt_str_view(next_page_token)),
    {
        let query = Query::new().optional_pair("nextPageToken", next_page_token);
        Request::new(Method::Get, self.build_url("/machines").concat(query.as_str()))
    }

    /// The request that reads one page of unit states.
    pub fn request_to_list_unit_states(
        &self,
        machine_id: Option<&str>,
        unit_name: Option<&str>,
        next_page_token: Option<&str>,
    ) -> (r: Request)
        ensures
            r@ == list_unit_states_request(
                self.root(),
                opt_str_view(machine_id),
                opt_str_view(unit_name),
                opt_str_view(next_page_token),
            ),
    {
        let query = Query::new().optional_pair("machineID", machine_id).optional_pair(
            "unitName",
            unit_name,
        ).optional_pair("nextPageToken", next_page_token);
        Request::new(Method::Get, self.build_url("/state").concat(query.as_str()))
    }

    /// Hands one request to the transport.
    fn send(&self, request: Request) -> (raw: Result<Response, String>)
        requires
            takes_every_request(self.transport()),
        ensures
            exchanged(self.transport(), request@, result_view(raw)),
    {
        let raw = (self.transport)(&request);
        raw
    }

    /// Gets a single unit by name.
    ///
    /// # Failures
    ///
    /// A status other than 200 is reported with the message of the response. A body that is
    /// no JSON document, or no unit, is reported as a mapping error.
    pub fn get_unit(&self, name: &str) -> (r: Result<Unit, FleetError>)
        requires
            takes_every_request(self.transport()),
        ensures
            exists|reply: Reply| #[trigger]
                exchanged(self.transport(), get_unit_request(self.root(), name@), reply)
                    && result_view(r) == fetched(reply, |document: JsonView| unit_of(document)),
    {
        let reply = self.send(self.request_to_get_unit(name));
        accept_unit(reply)
    }

    /// Creates a fleet unit.
    ///
    /// A unit consists of a name, the desired runtime state, and a set of unit options which
    /// comprise the unit's unit file.
    ///
    /// # Failures
    ///
    /// A status other than 201 and 204 is reported with the message of the response.
    pub fn create_unit(&self, name: &str, desired_state: UnitStates, options: Vec<UnitOption>) -> (r:
        Result<(), FleetError>)
        requires
            takes_every_request(self.transport()),
        ensures
            exists|reply: Reply| #[trigger]
                exchanged(
                    self.transport(),
                    create_unit_request(
                        self.root(),
                        name@,
                        desired_state,
                        option_views(options@),
                    ),
                    reply,
                ) && result_view(r) == written(reply),
    {
        let reply = self.send(self.request_to_create_unit(name, desired_state, options));
        accept_write(reply)
    }

    /// Destroys the unit with the given name.
    ///
    /// # Failures
    ///
    /// A status other than 204 and 200 is reported with the message of the response.
    pub fn destroy_unit(&self, name: &str) -> (r: Result<(), FleetError>)
        requires
            takes_every_request(self.transport()),
        ensures
            exists|reply: Reply| #[trigger]
                exchanged(self.transport(), destroy_unit_request(self.root(), name@), reply)
                    && result_view(r) == destroyed(reply),
    {
        let reply = self.send(self.request_to_destroy_unit(name));
        accept_destroy(reply)
    }

    /// Lists machines in the fleet cluster. This is a paginated resource.
    ///
    /// `next_page_token` is the token of the page before, and `None` for the first page.
    ///
    /// # Failures
    ///
    /// A status other than 200 is reported with the message of the response. A body that is
    /// no JSON document, or holds a machine that lacks a required field, is reported as a
    /// mapping error.
    pub fn list_machines(&self, next_page_token: Option<String>) -> (r: Result<
        MachinePage,
        FleetError,
    >)
        requires
            takes_every_request(self.transport()),
        ensures
            exists|reply: Reply| #[trigger]
                exchanged(
                    self.transport(),
                    list_machines_request(self.root(), opt_view(next_page_token)),
                    reply,
                ) && result_view(r) == fetched(
                    reply,
                    |document: JsonView| machine_page_of(document),
                ),
    {
        let reply = self.send(self.request_to_list_machines(as_slice(&next_page_token)));
        accept_machine_page(reply)
    }

    /// Lists the states of units in the fleet cluster. This is a paginated resource.
    ///
    /// If `Some` values are provided for `machine_id` or `unit_name`, they will be used to filter
    /// the unit states to only those matching the supplied values.
    ///
    /// # Failures
    ///
    /// A status other than 200 is reported with the message of the response. A body that is
    /// no JSON document, or holds a state that lacks a required field, is reported as a
    /// mapping error.
    pub fn list_unit_states(
        &self,
        machine_id: Option<&str>,
        unit_name: Option<&str>,
        next_page_token: Option<String>,
    ) -> (r: Result<UnitStatePage, FleetError>)
        requires
            takes_every_request(self.transport()),
        ensures
            exists|reply: Reply| #[trigger]
                exchanged(
                    self.transport(),
                    list_unit_states_request(
                        self.root(),
                        opt_str_view(machine_id),
                        opt_str_view(unit_name),
                        opt_view(next_page_token),
                    ),
                    reply,
                ) && result_view(r) == fetched(
                    reply,
                    |document: JsonView| unit_state_page_of(document),
                ),
    {
        let reply = self.send(
            self.request_to_list_unit_states(machine_id, unit_name, as_slice(&next_page_token)),
        );
        accept_unit_state_page(reply)
    }

    /// Lists the units in the fleet cluster. This is a paginated resource.
    ///
    /// `next_page_token` is the token of the page before, and `None` for the first page.
    ///
    /// # Failures
    ///
    /// A status other than 200 is reported with the message of the response. A body that is
    /// no JSON document, or holds a unit that lacks a required field or has an unknown state,
    /// is reported as a mapping error.
    pub fn list_units(&self, next_page_token: Option<String>) -> (r: Result<UnitPage, FleetError>)
        requires
            takes_every_request(self.transport()),
        ensures
            exists|reply: Reply| #[trigger]
                exchanged(
                    self.transport(),
                    list_units_request(self.root(), opt_view(next_page_token)),
                    reply,
                ) && result_view(r) == fetched(reply, |document: JsonView| unit_page_of(document)),
    {
        let reply = self.send(self.request_to_list_units(as_slice(&next_page_token)));
        accept_unit_page(reply)
    }

    /// Modifies a unit, instructing fleetd to move the unit to a new state.
    ///
    /// # Failures
    ///
    /// A status other than 201 and 204 is reported with the message of the response.
    pub fn modify_unit(&self, name: &str, desired_state: UnitStates) -> (r: Result<(), FleetError>)
        requires
            takes_every_request(self.transport()),
        ensures
            exists|reply: Reply| #[trigger]
                exchanged(
                    self.transport(),
                    modify_unit_request(self.root(), name@, desired_state),
                    reply,
                ) && result_view(r) == written(reply),
    {
        let reply = self.send(self.request_to_modify_unit(name, desired_state));
        accept_write(reply)
    }
}

/// An optional string as an optional slice.
fn as_slice(text: &Option<String>) -> (r: Option<&str>)
    ensures
        opt_str_view(r) == opt_view(*text),
{
    match text {
        Some(t) => Some(t.as_str()),
        None => None,
    }
}

/// The kind of an error tells where a write failed: a transport error means
/// that no response came, an API error that the daemon refused. A write
/// never fails with a mapping error.
pub proof fn lemma_kinds_of_failed_writes(reply: Reply)
    ensures
        written(reply) matches Err(e) ==> {
            &&& e.kind == ErrorKind::Transport <==> reply is Err
            &&& e.kind == ErrorKind::Api <==> reply is Ok
            &&& reply matches Ok(response) ==> e.code == Some(response.status)
        },
        destroyed(reply) matches Err(e) ==> {
            &&& e.kind == ErrorKind::Transport <==> reply is Err
            &&& e.kind == ErrorKind::Api <==> reply is Ok
            &&& reply matches Ok(response) ==> e.code == Some(response.status)
        },
{
}

/// The kind of an error tells where a read failed: a transport error means
/// that no response came, an API error that the daemon answered with a
/// status other than 200, and a mapping error that it answered with 200 and
/// a body that does not hold what was asked for.
pub proof fn lemma_kinds_of_failed_reads<T>(
    reply: Reply,
    decode: spec_fn(JsonView) -> Result<T, FleetErrorView>,
)
    requires
        forall|document: JsonView| #[trigger] decode(document) matches Err(e) ==> e.kind
            == ErrorKind::Mapping,
    ensures
        fetched(reply, decode) matches Err(e) ==> {
            &&& e.kind == ErrorKind::Transport <==> reply is Err
            &&& e.kind == ErrorKind::Api <==> (reply matches Ok(response) && response.status != 200)
            &&& e.kind == ErrorKind::Mapping <==> (reply matches Ok(response) && response.status
                == 200)
        },
{
}

/// What [`lemma_kinds_of_failed_reads`] says holds of the four reads of the
/// client.
pub proof fn lemma_kinds_of_failed_client_reads(reply: Reply)
    ensures
        fetched(reply, |document: JsonView| unit_of(document)) matches Err(e) ==> (e.kind
            == ErrorKind::Mapping <==> (reply matches Ok(response) && response.status == 200)),
        fetched(reply, |document: JsonView| unit_page_of(document)) matches Err(e) ==> (e.kind
            == ErrorKind::Mapping <==> (reply matches Ok(response) && response.status == 200)),
        fetched(reply, |document: JsonView| machine_page_of(document)) matches Err(e) ==> (e.kind
            == ErrorKind::Mapping <==> (reply matches Ok(response) && response.status == 200)),
        fetched(reply, |document: JsonView| unit_state_page_of(document)) matches Err(e) ==> (
        e.kind == ErrorKind::Mapping <==> (reply matches Ok(response) && response.status == 200)),
{
    assert forall|document: JsonView| #[trigger] unit_of(document) is Err implies unit_of(
        document,
    )->Err_0.kind == ErrorKind::Mapping by {
        lemma_decoding_fails_with_mapping_errors(document);
    }
    assert forall|document: JsonView| #[trigger]
        unit_page_of(document) is Err implies unit_page_of(document)->Err_0.kind
        == ErrorKind::Mapping by {
        lemma_decoding_fails_with_mapping_errors(document);
    }
    assert forall|document: JsonView| #[trigger]
        machine_page_of(document) is Err implies machine_page_of(document)->Err_0.kind
        == ErrorKind::Mapping by {
        lemma_decoding_fails_with_mapping_errors(document);
    }
    assert forall|document: JsonView| #[trigger]
        unit_state_page_of(document) is Err implies unit_state_page_of(document)->Err_0.kind
        == ErrorKind::Mapping by {
        lemma_decoding_fails_with_mapping_errors(document);
    }
    lemma_kinds_of_failed_reads(reply, |document: JsonView| unit_of(document));
    lemma_kinds_of_failed_reads(reply, |document: JsonView| unit_page_of(document));
    lemma_kinds_of_failed_reads(reply, |document: JsonView| machine_page_of(document));
    lemma_kinds_of_failed_reads(reply, |document: JsonView| unit_state_page_of(document));
}

} // verus!
