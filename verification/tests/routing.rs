use http_server::server::{Asset, Handler, RequestMethod, Route};

fn handler(method: RequestMethod, path: &str) -> Handler {
    let path = path.to_string();
    Route::new_route(&method, &path).handler()
}

#[test]
fn parse_request_method_knows_the_five_methods_in_upper_case() {
    assert_eq!(RequestMethod::parse_request_method("GET"), RequestMethod::GET);
    assert_eq!(RequestMethod::parse_request_method("POST"), RequestMethod::POST);
    assert_eq!(RequestMethod::parse_request_method("PUT"), RequestMethod::PUT);
    assert_eq!(RequestMethod::parse_request_method("PATCH"), RequestMethod::PATCH);
    assert_eq!(RequestMethod::parse_request_method("DELETE"), RequestMethod::DELETE);
    assert_eq!(RequestMethod::parse_request_method("get"), RequestMethod::Invalid);
    assert_eq!(RequestMethod::parse_request_method("HEAD"), RequestMethod::Invalid);
    assert_eq!(RequestMethod::parse_request_method(""), RequestMethod::Invalid);
    assert_eq!(RequestMethod::parse_request_method("GET "), RequestMethod::Invalid);
}

#[test]
fn new_route_holds_the_method_and_the_path() {
    let method = RequestMethod::POST;
    let path = "/calculator".to_string();
    let route = Route::new_route(&method, &path);
    assert_eq!(*route.method, RequestMethod::POST);
    assert_eq!(route.path, "/calculator");
}

#[test]
fn get_routes_lead_to_the_assets() {
    assert_eq!(handler(RequestMethod::GET, "/"), Handler::Asset(Asset::Home));
    assert_eq!(handler(RequestMethod::GET, "/calculator"), Handler::Asset(Asset::CalculatorPage));
    assert_eq!(handler(RequestMethod::GET, "/create-people"), Handler::Asset(Asset::PeopleForm));
    assert_eq!(handler(RequestMethod::GET, "/people.js"), Handler::Asset(Asset::PeopleScript));
    assert_eq!(handler(RequestMethod::GET, "/calc.js"), Handler::Asset(Asset::CalculatorScript));
}

#[test]
fn post_routes_lead_to_the_two_handlers() {
    assert_eq!(handler(RequestMethod::POST, "/calculator"), Handler::Calculate);
    assert_eq!(handler(RequestMethod::POST, "/create-people"), Handler::CreatePeople);
}

#[test]
fn paths_match_exactly() {
    assert_eq!(handler(RequestMethod::GET, ""), Handler::PageNotFound);
    assert_eq!(handler(RequestMethod::GET, "/calculator/"), Handler::PageNotFound);
    assert_eq!(handler(RequestMethod::GET, "/calculator?x=1"), Handler::PageNotFound);
    assert_eq!(handler(RequestMethod::GET, "/Calculator"), Handler::PageNotFound);
    assert_eq!(handler(RequestMethod::GET, "/other.js"), Handler::PageNotFound);
    assert_eq!(handler(RequestMethod::POST, "/"), Handler::RouteNotFound);
    assert_eq!(handler(RequestMethod::POST, "/create-people/"), Handler::RouteNotFound);
    assert_eq!(handler(RequestMethod::POST, "/calc.js"), Handler::RouteNotFound);
}

#[test]
fn other_methods_are_unsupported_whatever_the_path() {
    for method in [RequestMethod::PUT, RequestMethod::PATCH, RequestMethod::DELETE, RequestMethod::Invalid] {
        assert_eq!(handler(method, "/"), Handler::Unsupported);
        assert_eq!(handler(method, "/calculator"), Handler::Unsupported);
        assert_eq!(handler(method, "/nowhere"), Handler::Unsupported);
    }
}

#[test]
fn assets_have_their_file_and_content_type() {
    assert_eq!(Asset::Home.file_name(), "home.html");
    assert_eq!(Asset::CalculatorPage.file_name(), "calc.html");
    assert_eq!(Asset::PeopleForm.file_name(), "people.html");
    assert_eq!(Asset::PeopleScript.file_name(), "people.js");
    assert_eq!(Asset::CalculatorScript.file_name(), "calc.js");
    assert_eq!(Asset::Home.file_path(), "src/public/home.html");
    assert_eq!(Asset::CalculatorScript.file_path(), "src/public/calc.js");
    assert_eq!(Asset::Home.content_type(), "text/html");
    assert_eq!(Asset::CalculatorPage.content_type(), "text/html");
    assert_eq!(Asset::PeopleForm.content_type(), "text/html");
    assert_eq!(Asset::PeopleScript.content_type(), "application/javascript");
    assert_eq!(Asset::CalculatorScript.content_type(), "application/javascript");
}
