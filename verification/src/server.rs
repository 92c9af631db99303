//! Methods, routes and responses.

use vstd::prelude::*;
use vstd::string::{StrSliceExecFns, StringExecFns};
use vstd::utf8::encode_utf8;
use crate::decimal::{decimal_digits, decimal_string};
use crate::headers::{has_name, HeaderMap};
use crate::response_message::StatusCode;
use crate::text::str_eq;
use crate::wire::{
    header_line,
    header_lines,
    lemma_standard_response,
    message_text,
    response_text,
    standard_fields,
    status_line,
};

verus! {

/// The method of a request. Whatever is not one of the five known methods
/// is `Invalid`.
#[derive(Copy, Clone, Debug, PartialEq, Eq, Structural)]
pub enum RequestMethod {
    GET,
    POST,
    PUT,
    PATCH,
    DELETE,
    Invalid,
}

/// The method that the word `s` names. Names are in upper case, and nothing
/// else is taken for them.
pub open spec fn method_of(s: Seq<char>) -> RequestMethod {
    if s == "GET"@ {
        RequestMethod::GET
    } else if s == "POST"@ {
        RequestMethod::POST
    } else if s == "PUT"@ {
        RequestMethod::PUT
    } else if s == "PATCH"@ {
        RequestMethod::PATCH
    } else if s == "DELETE"@ {
        RequestMethod::DELETE
    } else {
        RequestMethod::Invalid
    }
}

impl RequestMethod {
    /// The method that `str_method` names.
    pub fn parse_request_method(str_method: &str) -> (method: Self)
        ensures
            method == method_of(str_method@),
    {
        if str_eq(str_method, "GET") {
            RequestMethod::GET
        } else if str_eq(str_method, "POST") {
            RequestMethod::POST
        } else if str_eq(str_method, "PUT") {
            RequestMethod::PUT
        } else if str_eq(str_method, "PATCH") {
            RequestMethod::PATCH
        } else if str_eq(str_method, "DELETE") {
            RequestMethod::DELETE
        } else {
            RequestMethod::Invalid
        }
    }
}

/// A file that the server serves as it is.
#[derive(Copy, Clone, Debug, PartialEq, Eq, Structural)]
pub enum Asset {
    /// The home page.
    Home,
    /// The page of the calculator.
    CalculatorPage,
    /// The page with the form that creates a person.
    PeopleForm,
    /// The script of the form page.
    PeopleScript,
    /// The script of the calculator page.
    CalculatorScript,
}

impl Asset {
    /// The name of the file in the asset directory.
    pub open spec fn file(self) -> Seq<char> {
        match self {
            Asset::Home => "home.html"@,
            Asset::CalculatorPage => "calc.html"@,
            Asset::PeopleForm => "people.html"@,
            Asset::PeopleScript => "people.js"@,
            Asset::CalculatorScript => "calc.js"@,
        }
    }

    /// Where the file is, relative to the server root: in the asset
    /// directory, under its name.
    pub open spec fn path(self) -> Seq<char> {
        "src/public/"@ + self.file()
    }

    /// Whether the asset is a script; the others are pages.
    pub open spec fn is_script(self) -> bool {
        self == Asset::PeopleScript || self == Asset::CalculatorScript
    }

    /// The content type under which the asset is served: that of scripts
    /// for a script, that of markup for a page.
    pub open spec fn media_type(self) -> Seq<char> {
        if self.is_script() {
            "application/javascript"@
        } else {
            "text/html"@
        }
    }

    /// The name of the file in the asset directory.
    pub fn file_name(&self) -> (name: &'static str)
        ensures
            name@ == self.file(),
    {
        match self {
            Asset::Home => "home.html",
            Asset::CalculatorPage => "calc.html",
            Asset::PeopleForm => "people.html",
            Asset::PeopleScript => "people.js",
            Asset::CalculatorScript => "calc.js",
        }
    }

    /// Where the file is, relative to the server root.
    pub fn file_path(&self) -> (path: String)
        ensures
            path@ == self.path(),
    {
        let mut path = String::from_str("src/public/");
        path.append(self.file_name());
        path
    }

    /// The content type under which the asset is served.
    pub fn content_type(&self) -> (media: &'static str)
        ensures
            media@ == self.media_type(),
    {
        match self {
            Asset::PeopleScript | Asset::CalculatorScript => "application/javascript",
            _ => "text/html",
        }
    }
}

/// What the router selects for a request.
#[derive(Copy, Clone, Debug, PartialEq, Eq, Structural)]
pub enum Handler {
    /// Serve a file.
    Asset(Asset),
    /// Do the arithmetic that the body asks for.
    Calculate,
    /// Store the person that the body describes.
    CreatePeople,
    /// A `GET` of a path that is not registered.
    PageNotFound,
    /// A `POST` of a path that is not registered.
    RouteNotFound,
    /// A method that no route is registered for.
    Unsupported,
}

/// The handler of a method and a path. A path matches a registered one only
/// if it is the same text, character for character.
pub open spec fn select(method: RequestMethod, path: Seq<char>) -> Handler {
    match method {
        RequestMethod::GET => {
            if path == "/"@ {
                Handler::Asset(Asset::Home)
            } else if path == "/calculator"@ {
                Handler::Asset(Asset::CalculatorPage)
            } else if path == "/create-people"@ {
                Handler::Asset(Asset::PeopleForm)
            } else if path == "/people.js"@ {
                Handler::Asset(Asset::PeopleScript)
            } else if path == "/calc.js"@ {
                Handler::Asset(Asset::CalculatorScript)
            } else {
                Handler::PageNotFound
            }
        },
        RequestMethod::POST => {
            if path == "/calculator"@ {
                Handler::Calculate
            } else if path == "/create-people"@ {
                Handler::CreatePeople
            } else {
                Handler::RouteNotFound
            }
        },
        _ => Handler::Unsupported,
    }
}

/// A method and a path, as the router matches them.
#[derive(Debug)]
pub struct Route<'a> {
    pub method: &'a RequestMethod,
    pub path: &'a String,
}

impl<'a> Route<'a> {
    /// The route of `method` and `path`.
    pub fn new_route(method: &'a RequestMethod, path: &'a String) -> (route: Self)
        ensures
            route.method == method,
            route.path == path,
    {
        Route { method, path }
    }

    /// The handler that the route leads to.
    pub fn handler(&self) -> (handler: Handler)
        ensures
            handler == select(*self.method, self.path@),
    {
        let path = self.path.as_str();
        match self.method {
            RequestMethod::GET => {
                if str_eq(path, "/") {
                    Handler::Asset(Asset::Home)
                } else if str_eq(path, "/calculator") {
                    Handler::Asset(Asset::CalculatorPage)
                } else if str_eq(path, "/create-people") {
                    Handler::Asset(Asset::PeopleForm)
                } else if str_eq(path, "/people.js") {
                    Handler::Asset(Asset::PeopleScript)
                } else if str_eq(path, "/calc.js") {
                    Handler::Asset(Asset::CalculatorScript)
                } else {
                    Handler::PageNotFound
                }
            },
            RequestMethod::POST => {
                if str_eq(path, "/calculator") {
                    Handler::Calculate
                } else if str_eq(path, "/create-people") {
                    Handler::CreatePeople
                } else {
                    Handler::RouteNotFound
                }
            },
            _ => Handler::Unsupported,
        }
    }
}

/// A response before it is written out: the status and the header fields.
/// The body is given when the response is serialized.
#[derive(Debug)]
pub struct Response {
    pub status_code: StatusCode,
    pub headers: HeaderMap,
}

impl Response {
    /// A response with the given status and header fields.
    pub fn new_response(status_code: StatusCode, headers: HeaderMap) -> (response: Self)
        ensures
            response.status_code == status_code,
            response.headers@ == headers@,
    {
        Response { status_code: status_code, headers: headers }
    }

    /// The bytes of the response with `body_content` as its body: status
    /// line, one line for each header field in the order of the map, an empty
    /// line, the body.
    pub fn parse_response(&self, body_content: &str) -> (bytes: Vec<u8>)
        ensures
            bytes@ == encode_utf8(response_text(self.status_code, self.headers@, body_content@)),
    {
        let mut response = String::from_str("HTTP/1.1 ");
        response.append(self.status_code.to_string().as_str());
        response.append("\r\n");
        let n = self.headers.len();
        let mut i: usize = 0;
        while i < n
            invariant
                n == self.headers@.len(),
                i <= n,
                response@ == status_line(self.status_code) + header_lines(
                    self.headers@.take(i as int),
                ),
            decreases n - i,
        {
            let ghost before = response@;
            response.append(self.headers.name_at(i).as_str());
            response.append(": ");
            response.append(self.headers.value_at(i).as_str());
            response.append("\r\n");
            proof {
                let fields = self.headers@.take(i + 1);
                assert(fields.drop_last() =~= self.headers@.take(i as int));
                assert(response@ =~= before + header_line(fields.last().0, fields.last().1));
                assert(response@ =~= status_line(self.status_code) + header_lines(fields));
            }
            i += 1;
        }
        assert(self.headers@.take(n as int) =~= self.headers@);
        response.append("\r\n");
        response.append(body_content);
        assert(response@ =~= response_text(self.status_code, self.headers@, body_content@));
        response.as_str().as_bytes_vec()
    }
}

/// The header fields of a response that carries `body_content`:
/// `Content-Length` with the number of bytes of the body, then
/// `Content-Type` with `content_type`.
pub fn create_response_header(content_type: &str, body_content: &str) -> (headers: HeaderMap)
    ensures
        headers@ == standard_fields(content_type@, body_content@),
{
    let mut headers = HeaderMap::new();
    headers.insert(
        String::from_str("Content-Length"),
        decimal_string(body_content.as_bytes().len()),
    );
    let ghost first = headers@;
    headers.insert(String::from_str("Content-Type"), String::from_str(content_type));
    proof {
        reveal_strlit("Content-Length");
        reveal_strlit("Content-Type");
        assert("Content-Length"@.len() != "Content-Type"@.len());
        assert(first =~= seq![
            ("Content-Length"@, decimal_digits(encode_utf8(body_content@).len())),
        ]);
        assert(!has_name(first, "Content-Type"@));
        assert(headers@ =~= standard_fields(content_type@, body_content@));
    }
    headers
}

/// The response builder: the bytes of a response with the given status that
/// carries `body` as content of type `content_type`.
pub fn build_response(status: StatusCode, content_type: &str, body: &str) -> (bytes: Vec<u8>)
    ensures
        bytes@ == encode_utf8(message_text(status, content_type@, body@)),
{
    let response = Response::new_response(status, create_response_header(content_type, body));
    proof {
        lemma_standard_response(status, content_type@, body@);
    }
    response.parse_response(body)
}

} // verus!
