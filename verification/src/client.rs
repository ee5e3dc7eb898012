//! The Home Assistant REST client as requests: each call of the client is
//! the HTTP request it sends, and the caller performs it. Also the endpoint
//! registry's decision of which client a registered endpoint gives.

use vstd::prelude::*;
use crate::error::ToolError;
use crate::text::{owned, push_path_segment, push_str, same_text, strip_trailing_slashes};

verus! {

/// A registered Home Assistant endpoint.
#[derive(Debug)]
pub struct HaEndpoint {
    pub name: String,
    pub base_url: String,
    pub token: String,
    pub enabled: bool,
}

/// Where a Home Assistant instance answers, and the long-lived access
/// token it is called with. The base URL never ends with `/`.
pub struct Config {
    base_url: String,
    token: String,
}

impl Config {
    pub closed spec fn base(&self) -> Seq<char> {
        self.base_url@
    }

    pub closed spec fn secret(&self) -> Seq<char> {
        self.token@
    }

    /// A configuration for `base_url`, stripped of any trailing `/`, and
    /// `token`.
    pub fn new(base_url: &str, token: &str) -> (c: Config)
        ensures
            c.base() == crate::text::trim_end_slashes(base_url@),
            c.secret() == token@,
    {
        Config { base_url: strip_trailing_slashes(base_url), token: owned(token) }
    }

    /// The normalized base URL.
    pub fn base_url(&self) -> (r: &str)
        ensures
            r@ == self.base(),
    {
        self.base_url.as_str()
    }

    /// The value of the `Authorization` header: the token as a bearer token.
    pub fn authorization(&self) -> (r: String)
        ensures
            r@ == "Bearer "@ + self.secret(),
    {
        let mut r = owned("Bearer ");
        push_str(&mut r, self.token.as_str());
        r
    }
}

/// HTTP request methods the client uses.
#[derive(Clone, Copy, Debug, PartialEq, Eq, Structural)]
pub enum HttpMethod {
    Get,
    Post,
}

/// One query parameter.
#[derive(Debug)]
pub struct QueryParam {
    pub name: String,
    pub value: String,
}

/// The value of one member of a JSON request body.
#[derive(Debug)]
pub enum BodyValue {
    /// A JSON string with this text.
    Text(String),
    /// Any JSON value, given as its JSON text.
    Json(String),
}

pub enum BodyValueView {
    Text(Seq<char>),
    Json(Seq<char>),
}

/// One member of a JSON object body.
#[derive(Debug)]
pub struct BodyField {
    pub key: String,
    pub value: BodyValue,
}

pub struct FieldView {
    pub key: Seq<char>,
    pub value: BodyValueView,
}

impl View for BodyField {
    type V = FieldView;

    open spec fn view(&self) -> FieldView {
        FieldView {
            key: self.key@,
            value: match self.value {
                BodyValue::Text(t) => BodyValueView::Text(t@),
                BodyValue::Json(t) => BodyValueView::Json(t@),
            },
        }
    }
}

impl BodyField {
    /// A copy of this member.
    pub fn duplicate(&self) -> (f: BodyField)
        ensures
            f@ == self@,
    {
        BodyField {
            key: self.key.clone(),
            value: match &self.value {
                BodyValue::Text(t) => BodyValue::Text(t.clone()),
                BodyValue::Json(t) => BodyValue::Json(t.clone()),
            },
        }
    }
}

/// The views of a list of body members.
pub open spec fn fields_view(v: Seq<BodyField>) -> Seq<FieldView> {
    v.map_values(|f: BodyField| f@)
}

/// An HTTP request the caller is to send.
#[derive(Debug)]
pub struct HttpRequest {
    pub method: HttpMethod,
    /// The full URL, without its query string.
    pub url: String,
    /// The value of the `Authorization` header.
    pub authorization: String,
    /// Query parameters, to be encoded by the sender.
    pub query: Vec<QueryParam>,
    /// A JSON object body, member by member, if the request has one.
    pub body: Option<Vec<BodyField>>,
}

/// An `HttpRequest` as plain values.
pub struct RequestView {
    pub method: HttpMethod,
    pub url: Seq<char>,
    pub authorization: Seq<char>,
    pub query: Seq<(Seq<char>, Seq<char>)>,
    pub body: Option<Seq<FieldView>>,
}

impl View for HttpRequest {
    type V = RequestView;

    open spec fn view(&self) -> RequestView {
        RequestView {
            method: self.method,
            url: self.url@,
            authorization: self.authorization@,
            query: self.query@.map_values(|q: QueryParam| (q.name@, q.value@)),
            body: match self.body {
                Some(b) => Some(fields_view(b@)),
                None => None,
            },
        }
    }
}

/// A service invocation: `domain.service`, optionally on one entity, with
/// free-form service data.
#[derive(Debug)]
pub struct ServiceCall {
    pub domain: String,
    pub service: String,
    pub entity_id: Option<String>,
    pub data: Vec<BodyField>,
}

/// `fields` without the members named `key`, the others in order.
pub open spec fn without_key(fields: Seq<FieldView>, key: Seq<char>) -> Seq<FieldView>
    decreases fields.len(),
{
    if fields.len() == 0 {
        Seq::empty()
    } else {
        let rest = without_key(fields.drop_last(), key);
        if fields.last().key == key {
            rest
        } else {
            rest.push(fields.last())
        }
    }
}

/// The body of a service call: its data, with `entity_id` set to the
/// call's entity when it names one.
pub open spec fn service_payload(data: Seq<FieldView>, entity_id: Option<Seq<char>>) -> Seq<FieldView> {
    match entity_id {
        None => data,
        Some(id) => without_key(data, "entity_id"@).push(
            FieldView { key: "entity_id"@, value: BodyValueView::Text(id) },
        ),
    }
}

/// The URL of the entity list.
pub open spec fn states_url(base: Seq<char>) -> Seq<char> {
    base + "/api/states"@
}

/// The URL of one entity's state.
pub open spec fn entity_url(base: Seq<char>, entity_id: Seq<char>) -> Seq<char> {
    base + "/api/states/"@ + crate::text::percent_encode(vstd::utf8::encode_utf8(entity_id))
}

/// The URL a service is invoked at.
pub open spec fn service_url(base: Seq<char>, domain: Seq<char>, service: Seq<char>) -> Seq<char> {
    base + "/api/services/"@ + crate::text::percent_encode(vstd::utf8::encode_utf8(domain))
        + "/"@ + crate::text::percent_encode(vstd::utf8::encode_utf8(service))
}

/// The query that restricts a listing to one domain, if any.
pub open spec fn domain_query(domain: Option<Seq<char>>) -> Seq<(Seq<char>, Seq<char>)> {
    match domain {
        Some(d) => seq![("domain"@, d)],
        None => Seq::empty(),
    }
}

fn no_query() -> (q: Vec<QueryParam>)
    ensures
        q@.map_values(|p: QueryParam| (p.name@, p.value@)) == Seq::<(Seq<char>, Seq<char>)>::empty(),
{
    let q: Vec<QueryParam> = Vec::new();
    assert(q@.map_values(|p: QueryParam| (p.name@, p.value@)) =~= Seq::<(Seq<char>, Seq<char>)>::empty());
    q
}

fn domain_param(domain: &str) -> (q: Vec<QueryParam>)
    ensures
        q@.map_values(|p: QueryParam| (p.name@, p.value@)) == seq![("domain"@, domain@)],
{
    let mut q: Vec<QueryParam> = Vec::new();
    q.push(QueryParam { name: owned("domain"), value: owned(domain) });
    assert(q@.map_values(|p: QueryParam| (p.name@, p.value@)) =~= seq![("domain"@, domain@)]);
    q
}

/// A client of one Home Assistant instance.
pub struct Client {
    config: Config,
}

impl Client {
    pub closed spec fn base(&self) -> Seq<char> {
        self.config.base()
    }

    pub closed spec fn secret(&self) -> Seq<char> {
        self.config.secret()
    }

    /// A client for `config`.
    pub fn new(config: Config) -> (c: Client)
        ensures
            c.base() == config.base(),
            c.secret() == config.secret(),
    {
        Client { config }
    }

    /// The configuration this client calls with.
    pub fn config(&self) -> (c: &Config)
        ensures
            c.base() == self.base(),
            c.secret() == self.secret(),
    {
        &self.config
    }

    /// Lists entities, restricted to one domain when `domain` is given.
    pub fn entity_list(&self, domain: Option<&str>) -> (r: HttpRequest)
        ensures
            r@.method == HttpMethod::Get,
            r@.url == states_url(self.base()),
            r@.authorization == "Bearer "@ + self.secret(),
            r@.query == domain_query(
                match domain {
                    Some(d) => Some(d@),
                    None => None,
                },
            ),
            r@.body is None,
    {
        let mut url = owned(self.config.base_url());
        push_str(&mut url, "/api/states");
        let query = match domain {
            Some(d) => domain_param(d),
            None => no_query(),
        };
        HttpRequest {
            method: HttpMethod::Get,
            url,
            authorization: self.config.authorization(),
            query,
            body: None,
        }
    }

    /// Fetches one entity's current state.
    pub fn entity_state(&self, entity_id: &str) -> (r: HttpRequest)
        ensures
            r@.method == HttpMethod::Get,
            r@.url == entity_url(self.base(), entity_id@),
            r@.authorization == "Bearer "@ + self.secret(),
            r@.query.len() == 0,
            r@.body is None,
    {
        let mut url = owned(self.config.base_url());
        push_str(&mut url, "/api/states/");
        push_path_segment(&mut url, entity_id);
        HttpRequest {
            method: HttpMethod::Get,
            url,
            authorization: self.config.authorization(),
            query: no_query(),
            body: None,
        }
    }

    /// Lists automations: the entities of the `automation` domain.
    pub fn automation_list(&self) -> (r: HttpRequest)
        ensures
            r@.method == HttpMethod::Get,
            r@.url == states_url(self.base()),
            r@.authorization == "Bearer "@ + self.secret(),
            r@.query == domain_query(Some("automation"@)),
            r@.body is None,
    {
        self.entity_list(Some("automation"))
    }

    /// Invokes a service, with the call's entity merged into its data.
    pub fn service_call(&self, call: &ServiceCall) -> (r: HttpRequest)
        ensures
            r@.method == HttpMethod::Post,
            r@.url == service_url(self.base(), call.domain@, call.service@),
            r@.authorization == "Bearer "@ + self.secret(),
            r@.query.len() == 0,
            r@.body == Some(
                service_payload(
                    fields_view(call.data@),
                    match call.entity_id {
                        Some(id) => Some(id@),
                        None => None,
                    },
                ),
            ),
    {
        let mut url = owned(self.config.base_url());
        push_str(&mut url, "/api/services/");
        push_path_segment(&mut url, call.domain.as_str());
        push_str(&mut url, "/");
        push_path_segment(&mut url, call.service.as_str());
        let body = service_body(&call.data, &call.entity_id);
        HttpRequest {
            method: HttpMethod::Post,
            url,
            authorization: self.config.authorization(),
            query: no_query(),
            body: Some(body),
        }
    }
}

/// The members of `data` not named `key`, in order.
pub fn fields_without(data: &Vec<BodyField>, key: &str) -> (r: Vec<BodyField>)
    ensures
        fields_view(r@) == without_key(fields_view(data@), key@),
{
    let mut r: Vec<BodyField> = Vec::new();
    let mut i: usize = 0;
    assert(fields_view(data@).take(0) =~= Seq::<FieldView>::empty());
    while i < data.len()
        invariant
            i <= data@.len(),
            fields_view(r@) == without_key(fields_view(data@).take(i as int), key@),
        decreases data.len() - i,
    {
        let ghost prefix = fields_view(data@).take(i as int + 1);
        assert(prefix.drop_last() =~= fields_view(data@).take(i as int));
        assert(prefix.last() == data@[i as int]@);
        let ghost prev = r@;
        if !same_text(data[i].key.as_str(), key) {
            r.push(data[i].duplicate());
            assert(fields_view(r@) =~= fields_view(prev).push(data@[i as int]@));
        } else {
            assert(data@[i as int]@.key == key@);
        }
        i = i + 1;
    }
    assert(fields_view(data@).take(i as int) =~= fields_view(data@));
    r
}

/// The body of a service call.
pub fn service_body(data: &Vec<BodyField>, entity_id: &Option<String>) -> (r: Vec<BodyField>)
    ensures
        fields_view(r@) == service_payload(
            fields_view(data@),
            match entity_id {
                Some(id) => Some(id@),
                None => None,
            },
        ),
{
    match entity_id {
        Some(id) => {
            let mut r = fields_without(data, "entity_id");
            let ghost prev = r@;
            r.push(BodyField { key: owned("entity_id"), value: BodyValue::Text(id.clone()) });
            assert(fields_view(r@) =~= fields_view(prev).push(
                FieldView { key: "entity_id"@, value: BodyValueView::Text(id@) },
            ));
            r
        },
        None => {
            let mut r: Vec<BodyField> = Vec::new();
            let mut i: usize = 0;
            while i < data.len()
                invariant
                    i <= data@.len(),
                    fields_view(r@) == fields_view(data@).take(i as int),
                decreases data.len() - i,
            {
                let ghost prev = r@;
                r.push(data[i].duplicate());
                assert(fields_view(r@) =~= fields_view(prev).push(data@[i as int]@));
                i = i + 1;
                assert(fields_view(data@).take(i as int) =~= fields_view(data@).take(
                    i as int - 1,
                ).push(data@[i as int - 1]@));
            }
            assert(fields_view(data@).take(i as int) =~= fields_view(data@));
            r
        },
    }
}

/// The client of a registered endpoint, or why there is none: the endpoint
/// must be registered (`row` is what the registry holds under `name`) and
/// enabled.
pub fn make_client(name: &str, row: Option<HaEndpoint>) -> (r: Result<Client, ToolError>)
    ensures
        match row {
            None => r matches Err(e) && e@ == (crate::error::ErrorView::EndpointNotRegistered {
                name: name@,
            }),
            Some(ep) => if ep.enabled {
                r matches Ok(c) && c.base() == crate::text::trim_end_slashes(ep.base_url@)
                    && c.secret() == ep.token@
            } else {
                r matches Err(e) && e@ == (crate::error::ErrorView::EndpointDisabled {
                    name: name@,
                })
            },
        },
{
    match row {
        None => Err(ToolError::EndpointNotRegistered { name: owned(name) }),
        Some(ep) => {
            if !ep.enabled {
                Err(ToolError::EndpointDisabled { name: owned(name) })
            } else {
                Ok(Client::new(Config::new(ep.base_url.as_str(), ep.token.as_str())))
            }
        },
    }
}

impl ServiceCall {
    /// The call the service tool makes: missing service data is an empty
    /// object.
    pub fn from_tool_args(
        service_domain: String,
        service_name: String,
        entity_id: Option<String>,
        service_data: Option<Vec<BodyField>>,
    ) -> (c: ServiceCall)
        ensures
            c.domain@ == service_domain@,
            c.service@ == service_name@,
            c.entity_id == entity_id,
            fields_view(c.data@) == match service_data {
                Some(d) => fields_view(d@),
                None => Seq::empty(),
            },
    {
        let data = match service_data {
            Some(d) => d,
            None => {
                let d: Vec<BodyField> = Vec::new();
                assert(fields_view(d@) =~= Seq::<FieldView>::empty());
                d
            },
        };
        ServiceCall { domain: service_domain, service: service_name, entity_id, data }
    }
}

// ---------------------------------------------------------------------
// Laws of the client
// ---------------------------------------------------------------------

/// A base URL given with or without a trailing slash gives the same
/// configuration, whose base never ends in `/`, so that no request URL has
/// a doubled slash where the base meets the path.
pub proof fn trailing_slash_in_base_url_is_normalized(base: Seq<char>)
    ensures
        crate::text::trim_end_slashes(base.push('/')) == crate::text::trim_end_slashes(base),
        crate::text::trim_end_slashes(base).len() == 0 || crate::text::trim_end_slashes(base).last()
            != '/',
        states_url(crate::text::trim_end_slashes(base.push('/'))) == states_url(
            crate::text::trim_end_slashes(base),
        ),
{
    crate::text::trailing_slash_is_ignored(base);
    crate::text::stripped_has_no_trailing_slash(base);
}

proof fn lemma_without_key(fields: Seq<FieldView>, key: Seq<char>)
    ensures
        forall|i: int|
            0 <= i < without_key(fields, key).len() ==> (#[trigger] without_key(fields, key)[i]).key
                != key,
        forall|j: int|
            0 <= j < fields.len() && (#[trigger] fields[j]).key != key ==> without_key(
                fields,
                key,
            ).contains(fields[j]),
    decreases fields.len(),
{
    if fields.len() > 0 {
        let init = fields.drop_last();
        lemma_without_key(init, key);
        let rest = without_key(init, key);
        assert forall|j: int|
            0 <= j < fields.len() && (#[trigger] fields[j]).key != key implies without_key(
            fields,
            key,
        ).contains(fields[j]) by {
            if j < fields.len() - 1 {
                assert(init[j] == fields[j]);
                let k = choose|k: int| 0 <= k < rest.len() && rest[k] == init[j];
                if fields.last().key != key {
                    assert(rest.push(fields.last())[k] == fields[j]);
                }
            } else {
                assert(rest.push(fields.last())[rest.len() as int] == fields[j]);
            }
        }
    }
}

/// A service call naming an entity sends a body in which `entity_id` is
/// that entity, once, and every other member of the call's data is kept.
pub proof fn service_call_merges_entity_id(data: Seq<FieldView>, entity_id: Seq<char>)
    ensures
        ({
            let body = service_payload(data, Some(entity_id));
            &&& body.last() == (FieldView {
                key: "entity_id"@,
                value: BodyValueView::Text(entity_id),
            })
            &&& forall|i: int| 0 <= i < body.len() - 1 ==> (#[trigger] body[i]).key != "entity_id"@
            &&& forall|j: int|
                0 <= j < data.len() && (#[trigger] data[j]).key != "entity_id"@ ==> body.contains(
                    data[j],
                )
        }),
{
    let rest = without_key(data, "entity_id"@);
    lemma_without_key(data, "entity_id"@);
    let body = service_payload(data, Some(entity_id));
    assert forall|i: int| 0 <= i < body.len() - 1 implies (#[trigger] body[i]).key
        != "entity_id"@ by {
        assert(body[i] == rest[i]);
    }
    assert forall|j: int|
        0 <= j < data.len() && (#[trigger] data[j]).key != "entity_id"@ implies body.contains(
        data[j],
    ) by {
        let k = choose|k: int| 0 <= k < rest.len() && rest[k] == data[j];
        assert(body[k] == data[j]);
    }
}

/// Whatever entity a service call names, every member of its service data
/// with another key than `entity_id` is sent, in order; a call that names no
/// entity sends its service data exactly as given.
pub proof fn service_call_keeps_service_data(data: Seq<FieldView>, entity_id: Option<Seq<char>>)
    ensures
        entity_id is None ==> service_payload(data, entity_id) == data,
        forall|j: int|
            0 <= j < data.len() && (#[trigger] data[j]).key != "entity_id"@ ==> service_payload(
                data,
                entity_id,
            ).contains(data[j]),
{
    match entity_id {
        None => {
            assert forall|j: int|
                0 <= j < data.len() && (#[trigger] data[j]).key != "entity_id"@ implies data.contains(
                data[j],
            ) by {}
        },
        Some(id) => {
            service_call_merges_entity_id(data, id);
        },
    }
}

} // verus!
