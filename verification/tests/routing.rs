use user_crud::routing::{first_line, get_id, request_id, route, route_line, Route};

#[test]
fn first_line_agrees_with_std_lines() {
    let texts = [
        "GET /users HTTP/1.1\r\nHost: x\r\n\r\n",
        "GET /users HTTP/1.1\nHost: x\n\n",
        "GET /users",
        "GET /users\r",
        "GET /users\r\n",
        "GET /users\r\r\n",
        "\r\nGET /users",
        "\nGET /users",
        "\r",
        "a\rb\nc",
    ];
    for t in texts {
        assert_eq!(first_line(t), t.lines().next().unwrap_or(""), "{:?}", t);
    }
    assert_eq!(first_line(""), "");
}

#[test]
fn first_line_exact_values() {
    assert_eq!(first_line("GET /users/42 HTTP/1.1\r\nHost: x\r\n\r\n"), "GET /users/42 HTTP/1.1");
    assert_eq!(first_line("one\ntwo"), "one");
    assert_eq!(first_line("one\r"), "one\r");
    assert_eq!(first_line("\u{e9}\r\n\u{e9}"), "\u{e9}");
}

#[test]
fn route_line_table() {
    assert_eq!(route_line("POST /users HTTP/1.1"), Route::Create);
    assert_eq!(route_line("GET /users/42 HTTP/1.1"), Route::ReadOne);
    assert_eq!(route_line("GET /users HTTP/1.1"), Route::ReadAll);
    assert_eq!(route_line("PUT /users/42 HTTP/1.1"), Route::Update);
    assert_eq!(route_line("DELETE /users/42 HTTP/1.1"), Route::Delete);
    assert_eq!(route_line("PATCH /users/42 HTTP/1.1"), Route::NotFound);
}

#[test]
fn route_goes_by_prefix() {
    assert_eq!(route_line("POST /users"), Route::Create);
    assert_eq!(route_line("POST /users/7"), Route::Create);
    assert_eq!(route_line("POST /usersandmore"), Route::Create);
    assert_eq!(route_line("GET /users?page=2"), Route::ReadAll);
    assert_eq!(route_line("GET /users/"), Route::ReadOne);
    assert_eq!(route_line("PUT /users/"), Route::Update);
    assert_eq!(route_line("DELETE /users/"), Route::Delete);
}

#[test]
fn route_is_not_found_for_anything_else() {
    for line in [
        "",
        "GET /",
        "GET /user",
        "get /users",
        " GET /users",
        "PUT /users",
        "DELETE /users",
        "POST /user",
        "HEAD /users",
        "HTTP/1.1 404 NOT FOUND",
    ] {
        assert_eq!(route_line(line), Route::NotFound, "{:?}", line);
    }
}

#[test]
fn route_reads_the_first_line_only() {
    assert_eq!(route("GET /users HTTP/1.1\r\nPOST /users\r\n\r\n"), Route::ReadAll);
    assert_eq!(route("\r\nGET /users HTTP/1.1\r\n\r\n"), Route::NotFound);
    assert_eq!(route("X\nGET /users/1"), Route::NotFound);
    assert_eq!(route(""), Route::NotFound);
}

#[test]
fn single_resource_read_never_goes_to_the_list_handler() {
    assert_eq!(route("GET /users/42"), Route::ReadOne);
    assert_ne!(route("GET /users/42"), Route::ReadAll);
    assert_eq!(route("GET /users/42 HTTP/1.1\r\n\r\n"), Route::ReadOne);
    for id in ["", "0", "1", "abc", "42/x", " 42"] {
        let request = format!("GET /users/{} HTTP/1.1\r\n\r\n", id);
        assert_eq!(route(&request), Route::ReadOne, "{:?}", request);
    }
}

#[test]
fn list_read_never_goes_to_the_single_resource_handler() {
    assert_eq!(route("GET /users"), Route::ReadAll);
    assert_ne!(route("GET /users"), Route::ReadOne);
    assert_eq!(route("GET /users HTTP/1.1\r\n\r\n"), Route::ReadAll);
    assert_eq!(route("GET /users\r\n"), Route::ReadAll);
}

#[test]
fn get_id_exact_values() {
    assert_eq!(get_id("GET /users/42 HTTP/1.1\r\nHost: x\r\n\r\n"), "42");
    assert_eq!(get_id("GET /users/42"), "42");
    assert_eq!(get_id("PUT /users/7/name HTTP/1.1"), "7");
    assert_eq!(get_id("DELETE /users/-3\r\n"), "-3");
    assert_eq!(get_id("GET /users/abc HTTP/1.1"), "abc");
    assert_eq!(get_id("GET /users/4\u{a0}2 HTTP/1.1"), "4");
    assert_eq!(get_id("GET /users/\u{e9}t\u{e9} HTTP/1.1"), "\u{e9}t\u{e9}");
}

#[test]
fn get_id_is_empty_when_the_segment_is_absent() {
    assert_eq!(get_id(""), "");
    assert_eq!(get_id("GET"), "");
    assert_eq!(get_id("GET /users"), "");
    assert_eq!(get_id("GET /users HTTP"), "");
    assert_eq!(get_id("GET /users/"), "");
    assert_eq!(get_id("GET /users/ HTTP/1.1"), "");
    assert_eq!(get_id("GET /users//5"), "");
    assert_eq!(get_id("GET /users/ 42 HTTP/1.1"), "");
}

#[test]
fn get_id_reads_what_follows_the_second_slash() {
    assert_eq!(get_id("a/b/c/d"), "c");
    assert_eq!(get_id("//x y"), "x");
    assert_eq!(get_id("GET /users HTTP/1.1\r\n"), "1.1");
}

fn id_by_std(request: &str) -> &str {
    let segment = request.split('/').nth(2).unwrap_or_default();
    segment.split(char::is_whitespace).next().unwrap_or_default()
}

#[test]
fn get_id_agrees_with_std_splitting() {
    let texts = [
        "",
        "/",
        "//",
        "///",
        "GET /users/42 HTTP/1.1\r\n\r\n",
        "GET /users/42/7 HTTP/1.1\r\n\r\n",
        "GET /users/\t42",
        "GET /users/42\u{2028}x",
        "GET /users/4 2",
        "GET /users",
        "a/b/c",
    ];
    for t in texts {
        assert_eq!(get_id(t), id_by_std(t), "{:?}", t);
    }
}

#[test]
fn request_id_exact_values() {
    assert_eq!(request_id("GET /users/42 HTTP/1.1\r\n\r\n"), Some(42));
    assert_eq!(request_id("GET /users/+42 HTTP/1.1\r\n\r\n"), Some(42));
    assert_eq!(request_id("DELETE /users/-1 HTTP/1.1\r\n\r\n"), Some(-1));
    assert_eq!(request_id("PUT /users/2147483647 HTTP/1.1\r\n\r\n"), Some(2147483647));
    assert_eq!(request_id("PUT /users/0/x HTTP/1.1\r\n\r\n"), Some(0));
}

#[test]
fn request_id_is_none_when_absent_or_not_numeric() {
    assert_eq!(request_id("GET /users/abc HTTP/1.1\r\n\r\n"), None);
    assert_eq!(request_id("GET /users/ HTTP/1.1\r\n\r\n"), None);
    assert_eq!(request_id("GET /users/"), None);
    assert_eq!(request_id("GET /users/4x HTTP/1.1"), None);
    assert_eq!(request_id("GET /users/2147483648 HTTP/1.1"), None);
    assert_eq!(request_id("GET /users/1.5 HTTP/1.1"), None);
    assert_eq!(request_id(""), None);
}
