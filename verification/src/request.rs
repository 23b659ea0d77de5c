//! Requests to the REST API as plain values: what is asked, of which path,
//! with which parameters. Nothing here sends anything.

use vstd::prelude::*;
use vstd::string::*;

verus! {

/// The HTTP method of a request.
#[derive(Clone, Copy, Debug, PartialEq, Eq, Structural)]
pub enum Method {
    Get,
    Post,
    Put,
    Delete,
}

/// How the data of a request travels.
#[derive(Clone, Copy, Debug, PartialEq, Eq, Structural)]
pub enum Encoding {
    /// The request has no body; its data, if any, is not sent.
    Nothing,
    /// As a form in the body.
    Form,
    /// As a JSON object in the body.
    Json,
}

impl Method {
    /// The name of the method.
    pub open spec fn name(self) -> Seq<char> {
        match self {
            Method::Get => "GET"@,
            Method::Post => "POST"@,
            Method::Put => "PUT"@,
            Method::Delete => "DELETE"@,
        }
    }

    /// How a request of this method carries its data: `POST` and `PUT` as a
    /// form, `DELETE` as JSON, `GET` not at all.
    pub open spec fn encoding_of(self) -> Encoding {
        match self {
            Method::Get => Encoding::Nothing,
            Method::Post => Encoding::Form,
            Method::Put => Encoding::Form,
            Method::Delete => Encoding::Json,
        }
    }

    /// The method of a name, if it is the name of a method that the API
    /// uses.
    pub fn parse(name: &str) -> (method: Option<Method>)
        ensures
            match method {
                Some(method) => name@ == method.name(),
                None => forall|method: Method| name@ != method.name(),
            },
    {
        let name = name.to_owned();
        if name == "GET".to_owned() {
            Some(Method::Get)
        } else if name == "POST".to_owned() {
            Some(Method::Post)
        } else if name == "DELETE".to_owned() {
            Some(Method::Delete)
        } else if name == "PUT".to_owned() {
            Some(Method::Put)
        } else {
            None
        }
    }

    /// The name of the method.
    pub fn as_str(&self) -> (name: &'static str)
        ensures
            name@ == self.name(),
    {
        match self {
            Method::Get => "GET",
            Method::Post => "POST",
            Method::Put => "PUT",
            Method::Delete => "DELETE",
        }
    }

    /// How a request of this method carries its data.
    pub fn encoding(&self) -> (encoding: Encoding)
        ensures
            encoding == self.encoding_of(),
    {
        match self {
            Method::Get => Encoding::Nothing,
            Method::Post | Method::Put => Encoding::Form,
            Method::Delete => Encoding::Json,
        }
    }
}

/// One named value of a request.
#[derive(Clone, Debug, PartialEq, Eq)]
pub struct Param {
    pub name: String,
    pub value: String,
}

impl View for Param {
    type V = (Seq<char>, Seq<char>);

    open spec fn view(&self) -> (Seq<char>, Seq<char>) {
        (self.name@, self.value@)
    }
}

/// What a list of parameters says: names and values, in order.
pub open spec fn params_of(params: Seq<Param>) -> Seq<(Seq<char>, Seq<char>)> {
    params.map_values(|param: Param| param@)
}

/// A request to the REST API.
#[derive(Clone, Debug, PartialEq, Eq)]
pub struct Request {
    pub method: Method,
    /// The path below the root of the API, with its leading slash.
    pub path: String,
    /// What goes into the query of the address.
    pub query: Vec<Param>,
    /// What goes into the body, if the method has one.
    pub data: Vec<Param>,
}

/// A request as plain values.
pub struct RequestModel {
    pub method: Method,
    pub path: Seq<char>,
    pub query: Seq<(Seq<char>, Seq<char>)>,
    pub data: Seq<(Seq<char>, Seq<char>)>,
}

impl View for Request {
    type V = RequestModel;

    open spec fn view(&self) -> RequestModel {
        RequestModel {
            method: self.method,
            path: self.path@,
            query: params_of(self.query@),
            data: params_of(self.data@),
        }
    }
}

/// No parameters.
pub open spec fn no_params() -> Seq<(Seq<char>, Seq<char>)> {
    Seq::empty()
}

/// The parameter `name` with `value`.
pub open spec fn one(name: Seq<char>, value: Seq<char>) -> Seq<(Seq<char>, Seq<char>)> {
    seq![(name, value)]
}

/// The parameter `name` if there is a value for it, nothing if not.
pub open spec fn optional(name: Seq<char>, value: Option<&str>) -> Seq<(Seq<char>, Seq<char>)> {
    match value {
        Some(value) => one(name, value@),
        None => no_params(),
    }
}

/// The parameter `name` once for each of `values`, in order.
pub open spec fn repeated(name: Seq<char>, values: Seq<&str>) -> Seq<(Seq<char>, Seq<char>)> {
    values.map_values(|value: &str| (name, value@))
}

/// A request for `path` without parameters.
pub open spec fn plain(method: Method, path: Seq<char>) -> RequestModel {
    RequestModel { method, path, query: no_params(), data: no_params() }
}

/// Adds the parameter `name` with `value` at the end of `params`.
pub fn push_param(params: &mut Vec<Param>, name: &str, value: &str)
    ensures
        params_of(final(params)@) == params_of(old(params)@) + one(name@, value@),
{
    let param = Param { name: name.to_owned(), value: value.to_owned() };
    params.push(param);
    assert(params_of(params@) =~= params_of(old(params)@) + one(name@, value@));
}

/// Adds the parameter `name` at the end of `params` if there is a value for
/// it.
pub fn push_optional(params: &mut Vec<Param>, name: &str, value: Option<&str>)
    ensures
        params_of(final(params)@) == params_of(old(params)@) + optional(name@, value),
{
    match value {
        Some(value) => push_param(params, name, value),
        None => {
            assert(params_of(params@) =~= params_of(old(params)@) + no_params());
        },
    }
}

/// Adds the parameter `name` at the end of `params` once for each of
/// `values`.
pub fn push_repeated(params: &mut Vec<Param>, name: &str, values: &Vec<&str>)
    ensures
        params_of(final(params)@) == params_of(old(params)@) + repeated(name@, values@),
{
    let mut index: usize = 0;
    while index < values.len()
        invariant
            index <= values.len(),
            params_of(params@) == params_of(old(params)@) + repeated(
                name@,
                values@.take(index as int),
            ),
        decreases values.len() - index,
    {
        let ghost before = params_of(params@);
        push_param(params, name, values[index]);
        assert(repeated(name@, values@.take(index + 1)) =~= repeated(
            name@,
            values@.take(index as int),
        ) + one(name@, values@[index as int]@));
        assert(params_of(params@) =~= params_of(old(params)@) + repeated(
            name@,
            values@.take(index + 1),
        ));
        index = index + 1;
    }
    assert(values@.take(index as int) =~= values@);
}

/// The list without parameters.
pub fn params_none() -> (params: Vec<Param>)
    ensures
        params_of(params@) == no_params(),
{
    let params: Vec<Param> = Vec::new();
    assert(params_of(params@) =~= no_params());
    params
}

/// The list that holds the parameter `name` with `value` and nothing else.
pub fn params_one(name: &str, value: &str) -> (params: Vec<Param>)
    ensures
        params_of(params@) == one(name@, value@),
{
    let mut params: Vec<Param> = Vec::new();
    params.push(Param { name: name.to_owned(), value: value.to_owned() });
    assert(params_of(params@) =~= one(name@, value@));
    params
}

/// The list that holds the parameter `name` once for each of `values`.
pub fn params_repeated(name: &str, values: &Vec<&str>) -> (params: Vec<Param>)
    ensures
        params_of(params@) == repeated(name@, values@),
{
    let mut params: Vec<Param> = Vec::new();
    assert(params_of(params@) =~= no_params());
    push_repeated(&mut params, name, values);
    assert(params_of(params@) =~= repeated(name@, values@));
    params
}

/// `head` and `tail` in one string.
pub fn join2(head: &str, tail: &str) -> (joined: String)
    ensures
        joined@ == head@ + tail@,
{
    let mut joined = String::from_str(head);
    joined.append(tail);
    joined
}

/// `head`, `middle` and `tail` in one string.
pub fn join3(head: &str, middle: &str, tail: &str) -> (joined: String)
    ensures
        joined@ == head@ + middle@ + tail@,
{
    let mut joined = join2(head, middle);
    joined.append(tail);
    joined
}

impl Request {
    /// A request for `path` without parameters.
    pub fn new(method: Method, path: String) -> (request: Request)
        ensures
            request@ == plain(method, path@),
    {
        let request = Request { method, path, query: Vec::new(), data: Vec::new() };
        assert(params_of(request.query@) =~= no_params());
        assert(params_of(request.data@) =~= no_params());
        request
    }

    /// A request for `path` with the given parameters.
    pub fn with(method: Method, path: String, query: Vec<Param>, data: Vec<Param>) -> (request:
        Request)
        ensures
            request@ == (RequestModel {
                method,
                path: path@,
                query: params_of(query@),
                data: params_of(data@),
            }),
    {
        Request { method, path, query, data }
    }

    /// How the request carries its data.
    pub fn encoding(&self) -> (encoding: Encoding)
        ensures
            encoding == self@.method.encoding_of(),
    {
        self.method.encoding()
    }
}

} // verus!
