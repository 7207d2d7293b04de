use emby_client::decode::{decode_is_admin, decode_list, decode_login_response};
use emby_client::domain::{Back, BackType, ListType};
use emby_client::error::ApiError;
use emby_client::json::parse_json;
use emby_client::request::{check_status, decode_response, HttpResponse, Method};
use emby_client::session::{generate_hash, Account, EmbyClient};

fn client() -> EmbyClient {
    EmbyClient::default("device-1234", "testhost", "1.0.0")
}

fn configured_client() -> EmbyClient {
    let mut c = client();
    c.header_change_url("https://example.com", "443").unwrap();
    c
}

#[test]
fn parse_url() {
    let uri = "127.0.0.1";
    let url = if url::Url::parse(uri).is_err() {
        format!("http://{}", uri)
    } else {
        uri.to_string()
    };

    assert_eq!(url, "http://127.0.0.1");
}

#[test]
fn server_url_resolves_to_api_root() {
    let mut c = client();
    c.header_change_url("https://example.com", "443").unwrap();
    let (base, _) = c.get_url_and_headers().unwrap();
    assert_eq!(base, "https://example.com:443/emby/");

    let mut c2 = client();
    c2.header_change_url("http://media.local", "8096").unwrap();
    let (base2, _) = c2.get_url_and_headers().unwrap();
    assert_eq!(base2, "http://media.local:8096/emby/");
}

#[test]
fn server_url_keeps_reverse_proxy_prefix() {
    let mut c = client();
    c.header_change_url("https://example.com/sub/", "443").unwrap();
    let (base, _) = c.get_url_and_headers().unwrap();
    assert_eq!(base, "https://example.com:443/sub/emby/");
}

#[test]
fn invalid_port_is_config_error_and_keeps_url() {
    let mut c = client();
    c.header_change_url("https://example.com", "443").unwrap();
    let r = c.header_change_url("https://other.com", "no-port");
    assert!(matches!(r, Err(ApiError::Config(_))));
    let (base, _) = c.get_url_and_headers().unwrap();
    assert_eq!(base, "https://example.com:443/emby/");

    let r2 = c.header_change_url("https://other.com", "70000");
    assert!(matches!(r2, Err(ApiError::Config(_))));
    let (base2, _) = c.get_url_and_headers().unwrap();
    assert_eq!(base2, "https://example.com:443/emby/");
}

#[test]
fn unparsable_address_is_config_error() {
    let mut c = client();
    let r = c.header_change_url("not a url", "443");
    assert!(matches!(r, Err(ApiError::Config(_))));
    assert!(c.get_url_and_headers().is_err());
}

#[test]
fn user_id_change_refreshes_authorization_header() {
    let mut c = configured_client();
    c.set_user_id("user-a");
    let (_, h) = c.get_url_and_headers().unwrap();
    assert_eq!(
        h.authorization,
        "Emby UserId=user-a,Client=Tsukimi,Device=testhost,DeviceId=device-1234,Version=1.0.0"
    );
    c.set_user_id("user-b");
    let (_, h2) = c.get_url_and_headers().unwrap();
    assert_eq!(
        h2.authorization,
        "Emby UserId=user-b,Client=Tsukimi,Device=testhost,DeviceId=device-1234,Version=1.0.0"
    );
}

#[test]
fn token_header_follows_token_change() {
    let mut c = configured_client();
    c.header_change_token("secret-token").unwrap();
    let (_, h) = c.get_url_and_headers().unwrap();
    assert_eq!(h.token, "secret-token");
    assert_eq!(h.accept_encoding, "gzip");
}

#[test]
fn init_loads_account() {
    let mut c = client();
    let account = Account {
        servername: "test".to_string(),
        server: "http://127.0.0.1".to_string(),
        username: "inaha".to_string(),
        password: String::new(),
        port: "8096".to_string(),
        user_id: "u-77".to_string(),
        access_token: "tok-77".to_string(),
        server_type: Some("Emby".to_string()),
    };
    c.init(&account).unwrap();
    let (base, h) = c.get_url_and_headers().unwrap();
    assert_eq!(base, "http://127.0.0.1:8096/emby/");
    assert_eq!(h.token, "tok-77");
    assert!(h.authorization.contains("UserId=u-77"));
    assert_eq!(c.user_id(), "u-77");
    assert_eq!(c.server_name_hash, generate_hash("test"));
}

#[test]
fn init_with_bad_token_keeps_identity_fields() {
    let mut c = client();
    let account = Account {
        servername: "test".to_string(),
        server: "http://127.0.0.1".to_string(),
        username: "x".to_string(),
        password: String::new(),
        port: "8096".to_string(),
        user_id: "u".to_string(),
        access_token: "bad\ntoken".to_string(),
        server_type: None,
    };
    assert!(matches!(c.init(&account), Err(ApiError::Config(_))));
    // The server root was accepted before the token was rejected; the
    // identity fields were never touched.
    assert!(c.get_url_and_headers().is_ok());
    assert_eq!(c.user_id(), "");
    assert_eq!(c.server_name_hash, "");
}

#[test]
fn init_with_bad_port_changes_nothing() {
    let mut c = client();
    let account = Account {
        servername: "test".to_string(),
        server: "http://127.0.0.1".to_string(),
        username: "x".to_string(),
        password: String::new(),
        port: "eight".to_string(),
        user_id: "u".to_string(),
        access_token: "t".to_string(),
        server_type: None,
    };
    assert!(matches!(c.init(&account), Err(ApiError::Config(_))));
    assert!(c.get_url_and_headers().is_err());
    assert_eq!(c.user_id(), "");
}

#[test]
fn request_without_server_is_config_error() {
    let c = client();
    let params: Vec<(String, String)> = Vec::new();
    assert!(matches!(
        c.request("System/Info", &params),
        Err(ApiError::Config(_))
    ));
}

#[test]
fn login_and_search_scenario() {
    // Login against a stub server returns a token; subsequent calls carry
    // the bearer header; a search against a stub returning two items gives
    // both names in served order.
    let mut c = configured_client();
    let login_req = c.login("test", "test").unwrap();
    assert!(matches!(login_req.method, Method::Post));
    assert_eq!(
        login_req.url,
        "https://example.com:443/emby/Users/authenticatebyname"
    );
    assert_eq!(
        login_req.body.clone().unwrap(),
        br#"{"Username":"test","Pw":"test"}"#.to_vec()
    );

    // The stub server's answer:
    let stub = HttpResponse {
        status: 200,
        etag: None,
        body: br#"{"AccessToken":"tok-1","User":{"Id":"uid-1"}}"#.to_vec(),
    };
    let body = decode_response("Users/authenticatebyname", &stub).unwrap();
    let login = decode_login_response(&body).unwrap();
    assert_eq!(login.access_token, "tok-1");
    assert_eq!(login.user_id, "uid-1");

    c.header_change_token(&login.access_token).unwrap();
    c.set_user_id(&login.user_id);

    let filter = vec!["Movie".to_string()];
    let search_req = c.search("Spirited Away", &filter, "0").unwrap();
    assert_eq!(search_req.headers.token, "tok-1");
    assert!(search_req.url.starts_with("https://example.com:443/emby/Users/uid-1/Items?"));
    assert!(search_req.url.contains("SearchTerm=Spirited+Away"));
    assert!(search_req.url.contains("IncludeItemTypes=Movie"));

    let stub_list = HttpResponse {
        status: 200,
        etag: None,
        body: br#"{"TotalRecordCount":2,"Items":[{"Name":"Spirited Away","Id":"1"},{"Name":"Spirited Away 2","Id":"2"}]}"#.to_vec(),
    };
    let body = decode_response("Users/uid-1/Items", &stub_list).unwrap();
    let list = decode_list(&body).unwrap();
    assert_eq!(list.total_record_count, 2);
    assert_eq!(list.items.len(), 2);
    assert_eq!(list.items[0].name, "Spirited Away");
    assert_eq!(list.items[1].name, "Spirited Away 2");
}

#[test]
fn non_success_status_is_http_error() {
    let stub = HttpResponse { status: 500, etag: None, body: b"oops".to_vec() };
    match decode_response("System/Info", &stub) {
        Err(ApiError::Http(s)) => assert_eq!(s, 500),
        _ => panic!("expected an Http error"),
    }
    assert!(check_status(204).is_ok());
    assert!(matches!(check_status(301), Err(ApiError::Http(301))));
}

#[test]
fn undecodable_body_is_decode_error_with_path() {
    let stub = HttpResponse { status: 200, etag: None, body: b"not json".to_vec() };
    match decode_response("Users/x/Items", &stub) {
        Err(ApiError::Decode { path, detail }) => {
            assert_eq!(path, "Users/x/Items");
            assert_eq!(detail, "not json");
        },
        _ => panic!("expected a Decode error"),
    }
}

#[test]
fn admin_check_decodes_policy() {
    let body = parse_json(&br#"{"Policy":{"IsAdministrator":true}}"#.to_vec()).unwrap();
    assert!(decode_is_admin(&body));
    let body2 = parse_json(&br#"{"Policy":{}}"#.to_vec()).unwrap();
    assert!(!decode_is_admin(&body2));
    let body3 = parse_json(&b"{}".to_vec()).unwrap();
    assert!(!decode_is_admin(&body3));
}

#[test]
fn search_url_round_trips_through_url_parser() {
    let mut c = configured_client();
    c.set_user_id("u");
    let filter = vec!["Movie".to_string()];
    let req = c.search("a&b=c d+e", &filter, "0").unwrap();
    let parsed = url::Url::parse(&req.url).unwrap();
    let value: Vec<(String, String)> = parsed
        .query_pairs()
        .filter(|(k, _)| k == "SearchTerm")
        .map(|(k, v)| (k.into_owned(), v.into_owned()))
        .collect();
    assert_eq!(value, vec![("SearchTerm".to_string(), "a&b=c d+e".to_string())]);
}

#[test]
fn domain_requests_have_expected_urls() {
    let mut c = configured_client();
    c.set_user_id("u7");
    let base = "https://example.com:443/emby/";

    let r = c.get_library().unwrap();
    assert_eq!(r.url, format!("{base}Users/u7/Views"));

    let r = c.get_server_info().unwrap();
    assert_eq!(r.url, format!("{base}System/Info"));

    let r = c.get_episodes("show1", "season2").unwrap();
    assert_eq!(
        r.url,
        format!("{base}Shows/show1/Episodes?Fields=Overview%2CPrimaryImageAspectRatio%2CPremiereDate%2CProductionYear%2CSyncStatus&ImageTypeLimit=1&SeasonId=season2&UserId=u7")
    );

    let r = c.get_activity_log(true).unwrap();
    assert_eq!(
        r.url,
        format!("{base}System/ActivityLog/Entries?Limit=15&StartIndex=0&hasUserId=true")
    );

    let r = c.authenticate_admin().unwrap();
    assert_eq!(r.url, format!("{base}Users/u7"));
}

#[test]
fn empty_parameter_key_is_skipped() {
    let mut c = configured_client();
    c.set_user_id("u1");
    // A non-liked list pushes the no-op empty parameter; it must not reach
    // the URL.
    let r = c
        .get_list("parent", 0, "Movie", ListType::All, "Ascending", "SortName")
        .unwrap();
    assert!(!r.url.contains("=&"));
    assert!(!r.url.ends_with('='));
    assert!(!r.url.contains("Filters"));
    let r2 = c
        .get_list("parent", 0, "Movie", ListType::Liked, "Ascending", "SortName")
        .unwrap();
    assert!(r2.url.contains("Filters=IsFavorite"));
}

#[test]
fn get_list_variants_pick_paths() {
    let mut c = configured_client();
    c.set_user_id("u1");
    let base = "https://example.com:443/emby/";
    let r = c
        .get_list("p", 5, "Series", ListType::Resume, "Ascending", "SortName")
        .unwrap();
    assert!(r.url.starts_with(&format!("{base}Users/u1/Items/Resume?")));
    assert!(r.url.contains("IncludeItemTypes=Episode"));
    let r = c
        .get_list("p", 5, "Movie", ListType::Genres, "Ascending", "SortName")
        .unwrap();
    assert!(r.url.starts_with(&format!("{base}Genres?")));
    let r = c
        .get_list("p", 5, "Movie", ListType::Tags, "Ascending", "SortName")
        .unwrap();
    assert!(r.url.contains("IncludeItemTypes=Tag"));
}

#[test]
fn direct_stream_url_is_under_server_root() {
    let mut c = configured_client();
    c.set_user_access_token("tok");
    let url = c.get_direct_stream_url("mkv", "src9", "etag9");
    assert_eq!(
        url,
        "https://example.com:443/Videos/src9/stream.mkv?Static=true&mediaSourceId=src9&deviceId=device-1234&api_key=tok&Tag=etag9"
    );
}

#[test]
fn streaming_url_trims_leading_slashes() {
    let c = configured_client();
    let url = c.get_streaming_url("/Videos/1/master.m3u8");
    assert_eq!(url, "https://example.com:443/emby/Videos/1/master.m3u8");
}

#[test]
fn image_path_joins_index() {
    let c = configured_client();
    assert_eq!(
        c.get_image_path("it1", "Primary", Some(3)),
        "https://example.com:443/emby/Items/it1/Images/Primary/3"
    );
    assert_eq!(
        c.get_image_path("it1", "Backdrop", None),
        "https://example.com:443/emby/Items/it1/Images/Backdrop/"
    );
}

#[test]
fn position_back_paths_follow_kind() {
    let c = configured_client();
    let back = Back {
        id: "it".to_string(),
        playsessionid: "ps".to_string(),
        mediasourceid: "ms".to_string(),
        tick: 120,
        start_tick: 0,
    };
    let r = c.position_back(&back, BackType::Start).unwrap();
    assert!(r.url.starts_with("https://example.com:443/emby/Sessions/Playing?"));
    let r = c.position_back(&back, BackType::Stop).unwrap();
    assert!(r.url.starts_with("https://example.com:443/emby/Sessions/Playing/Stopped?"));
    let r = c.position_back(&back, BackType::Back).unwrap();
    assert!(r.url.starts_with("https://example.com:443/emby/Sessions/Playing/Progress?"));
    let body = String::from_utf8(r.body.unwrap()).unwrap();
    assert!(body.contains("\"PositionTicks\":120"));
    assert!(body.contains("\"PlaySessionId\":\"ps\""));
}

#[test]
fn error_messages_name_their_class() {
    assert_eq!(ApiError::Network("x".to_string()).message(), "network failure");
    assert_eq!(ApiError::Http(404).message(), "server returned an error status");
    assert_eq!(
        ApiError::Decode { path: "p".to_string(), detail: "d".to_string() }.message(),
        "response could not be decoded"
    );
    assert_eq!(ApiError::Config("c".to_string()).message(), "invalid configuration");
    assert_eq!(ApiError::Lock.message(), "internal lock failure");
}

#[test]
fn invalid_token_is_config_error_and_keeps_header() {
    let mut c = configured_client();
    c.header_change_token("good-token").unwrap();
    let r = c.header_change_token("bad\ntoken");
    assert!(matches!(r, Err(ApiError::Config(_))));
    let (_, h) = c.get_url_and_headers().unwrap();
    assert_eq!(h.token, "good-token");
    let r2 = c.header_change_token("bad\u{7f}token");
    assert!(matches!(r2, Err(ApiError::Config(_))));
    // A tab is a legal header byte and is accepted.
    c.header_change_token("a\tb").unwrap();
}

#[test]
fn add_params_join_follows_existing_query() {
    let c = configured_client();
    let params = vec![("b".to_string(), "2".to_string())];
    let mut url = String::from("http://h/p?a=1");
    c.add_params_to_url(&mut url, &params);
    assert_eq!(url, "http://h/p?a=1&b=2");
    let mut bare = String::from("http://h/p");
    c.add_params_to_url(&mut bare, &params);
    assert_eq!(bare, "http://h/p?b=2");
}

#[test]
fn favourite_people_use_person_registry() {
    let mut c = configured_client();
    c.set_user_id("u2");
    let r = c.get_favourite("People", 0, 50, "SortName", "Ascending").unwrap();
    assert!(r.url.starts_with("https://example.com:443/emby/Persons?"));
    assert!(r.url.contains("UserId=u2"));
    let r2 = c.get_favourite("Movie", 10, 20, "SortName", "Ascending").unwrap();
    assert!(r2.url.starts_with("https://example.com:443/emby/Users/u2/Items?"));
    assert!(r2.url.contains("Limit=20"));
    assert!(r2.url.contains("StartIndex=10"));
    assert!(!r2.url.contains("UserId"));
}

#[test]
fn inlist_picks_id_parameter_by_kind() {
    let mut c = configured_client();
    c.set_user_id("u3");
    let r = c
        .get_inlist(None, 0, "Genres", "g1", "Ascending", "SortName")
        .unwrap();
    assert!(r.url.contains("GenreIds=g1"));
    assert!(!r.url.contains("ParentId"));
    let r = c
        .get_inlist(Some("lib1".to_string()), 0, "Studios", "s1", "Ascending", "SortName")
        .unwrap();
    assert!(r.url.contains("StudioIds=s1"));
    assert!(r.url.contains("ParentId=lib1"));
    let r = c
        .get_inlist(None, 0, "Tags", "t1", "Ascending", "SortName")
        .unwrap();
    assert!(r.url.contains("TagIds=t1"));
}

#[test]
fn image_upload_paths() {
    let c = configured_client();
    let r = c
        .post_image("it", "Thumb", b"img-bytes".to_vec(), "image/jpeg")
        .unwrap();
    assert_eq!(r.url, "https://example.com:443/emby/Items/it/Images/Thumb");
    assert_eq!(r.content_type.as_deref(), Some("image/jpeg"));
    assert_eq!(r.body.unwrap(), b"img-bytes".to_vec());

    let r = c.post_image_url("it", "Backdrop", 2, "http://img/x.png").unwrap();
    assert_eq!(r.url, "https://example.com:443/emby/Items/it/Images/2/Backdrop");
    assert_eq!(
        r.body.unwrap(),
        br#"{"Url":"http://img/x.png"}"#.to_vec()
    );

    let r = c.delete_image("it", "Primary", Some(1)).unwrap();
    assert_eq!(r.url, "https://example.com:443/emby/Items/it/Images/Primary/1/Delete");
}

#[test]
fn change_password_presents_stored_one() {
    let mut c = configured_client();
    c.set_user_id("u4");
    c.set_user_password("old-pw");
    let r = c.change_password("new-pw").unwrap();
    assert_eq!(r.url, "https://example.com:443/emby/Users/u4/Password");
    assert_eq!(
        r.body.unwrap(),
        br#"{"CurrentPw":"old-pw","NewPw":"new-pw"}"#.to_vec()
    );
}

#[test]
fn song_streaming_uri_carries_identity() {
    let mut c = configured_client();
    c.set_user_id("u5");
    c.set_user_access_token("tok5");
    let uri = c.get_song_streaming_uri("song1");
    assert!(uri.starts_with("https://example.com:443/emby/Audio/song1/universal?UserId=u5&DeviceId=device-1234&"));
    assert!(uri.contains("api_key=tok5"));
    assert!(uri.contains("TranscodingProtocol=hls"));
}

#[test]
fn server_name_hash_namespaces_cache() {
    let mut c = configured_client();
    c.set_server_name("My Server");
    assert_eq!(c.server_name_hash.len(), 16);
    let hash_a = c.server_name_hash.clone();
    c.set_server_name("Other Server");
    assert_ne!(c.server_name_hash, hash_a);
}
