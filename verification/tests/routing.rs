use rover_control::routing::{route_request, Route};

#[test]
fn websocket_endpoint_with_upgrade() {
    assert_eq!(route_request("/websocket", true), Route::WebSocket);
}

#[test]
fn websocket_endpoint_without_upgrade() {
    assert_eq!(route_request("/websocket", false), Route::UpgradeExpected);
}

#[test]
fn upgrade_at_another_path() {
    assert_eq!(route_request("/", true), Route::WrongEndpoint);
    assert_eq!(route_request("/index.html", true), Route::WrongEndpoint);
    assert_eq!(route_request("/websocket/", true), Route::WrongEndpoint);
    assert_eq!(route_request("/WebSocket", true), Route::WrongEndpoint);
}

#[test]
fn other_paths_name_a_file() {
    assert_eq!(route_request("/index.html", false), Route::StaticFile("index.html".to_string()));
    assert_eq!(route_request("/js/app.js", false), Route::StaticFile("js/app.js".to_string()));
    assert_eq!(route_request("/", false), Route::StaticFile(String::new()));
    assert_eq!(route_request("", false), Route::StaticFile(String::new()));
    assert_eq!(route_request("/websocket/", false), Route::StaticFile("websocket/".to_string()));
    assert_eq!(route_request("/é.txt", false), Route::StaticFile("é.txt".to_string()));
    assert_eq!(route_request("é.txt", false), Route::StaticFile(".txt".to_string()));
}
