use surf::middleware::redirect::{
    is_redirect, Decision, Method, Redirect, RequestHead, ResponseHead, DEFAULT_REDIRECT_ATTEMPTS,
};

fn get(url: &str) -> RequestHead {
    RequestHead { method: Method::Get, url: url.to_string(), with_body: false }
}

fn moved(status: u16, to: &str) -> ResponseHead {
    ResponseHead { status, location: Some(to.to_string()) }
}

fn ok() -> ResponseHead {
    ResponseHead { status: 200, location: None }
}

#[test]
fn follows_two_redirects_within_limit() {
    let mut lp = Redirect::new(2).begin(get("https://h/a"));
    let responses = [moved(301, "https://h/b"), moved(301, "/c"), ok()];
    let mut sent = vec![lp.request.url.clone()];
    let mut last = None;
    for r in responses.iter() {
        match lp.on_response(r) {
            Decision::Follow(next) => sent.push(next.url),
            Decision::Done => {
                last = Some(r.status);
                break;
            }
            d => panic!("unexpected {:?}", d),
        }
    }
    assert_eq!(last, Some(200));
    assert_eq!(lp.hops, 2);
    assert_eq!(sent, vec!["https://h/a", "https://h/b", "https://h/c"]);
    assert_eq!(lp.request.url, "https://h/c");
}

#[test]
fn too_many_redirects_is_an_error() {
    let mut lp = Redirect::new(3).begin(get("https://h/0"));
    let chain: Vec<ResponseHead> = (1..=5).map(|i| moved(302, &format!("https://h/{}", i))).collect();
    let mut outcome = None;
    for r in chain.iter() {
        match lp.on_response(r) {
            Decision::Follow(_) => continue,
            d => {
                outcome = Some(d);
                break;
            }
        }
    }
    assert!(matches!(outcome, Some(Decision::TooManyRedirects)));
    assert_eq!(lp.hops, 3);
    assert_eq!(lp.request.url, "https://h/3");
}

#[test]
fn see_other_downgrades_post_to_get_without_body() {
    let p = Redirect::default();
    assert_eq!(p.attempts, DEFAULT_REDIRECT_ATTEMPTS);
    let cur = RequestHead { method: Method::Post, url: "https://h/form".to_string(), with_body: true };
    match p.decide(0, &cur, &moved(303, "/done"), Some("https://h/done".to_string())) {
        Decision::Follow(next) => {
            assert_eq!(next.method, Method::Get);
            assert!(!next.with_body);
            assert_eq!(next.url, "https://h/done");
        }
        d => panic!("unexpected {:?}", d),
    }
}

#[test]
fn temporary_redirect_keeps_method_and_body() {
    let p = Redirect::new(3);
    let cur = RequestHead { method: Method::Put, url: "https://h/x".to_string(), with_body: true };
    match p.decide(1, &cur, &moved(307, "/y"), Some("https://h/y".to_string())) {
        Decision::Follow(next) => {
            assert_eq!(next.method, Method::Put);
            assert!(next.with_body);
        }
        d => panic!("unexpected {:?}", d),
    }
}

#[test]
fn moved_keeps_get_and_downgrades_post() {
    let p = Redirect::new(3);
    match p.decide(0, &get("https://h/x"), &moved(301, "/y"), Some("https://h/y".to_string())) {
        Decision::Follow(next) => assert_eq!(next.method, Method::Get),
        d => panic!("unexpected {:?}", d),
    }
    let post = RequestHead { method: Method::Post, url: "https://h/x".to_string(), with_body: true };
    match p.decide(0, &post, &moved(302, "/y"), Some("https://h/y".to_string())) {
        Decision::Follow(next) => {
            assert_eq!(next.method, Method::Get);
            assert!(!next.with_body);
        }
        d => panic!("unexpected {:?}", d),
    }
}

#[test]
fn non_redirects_and_missing_location_are_returned() {
    let p = Redirect::new(3);
    assert!(matches!(p.decide(0, &get("https://h/"), &ok(), None), Decision::Done));
    let bare = ResponseHead { status: 302, location: None };
    assert!(matches!(p.decide(0, &get("https://h/"), &bare, None), Decision::Done));
    assert!(is_redirect(308));
    assert!(!is_redirect(304));
}

#[test]
fn unresolvable_location_is_reported() {
    let mut lp = Redirect::new(3).begin(get("not a url"));
    assert!(matches!(lp.on_response(&moved(301, "/x")), Decision::BadLocation));
    assert_eq!(lp.hops, 0);
    assert_eq!(lp.request.url, "not a url");
}

#[test]
fn zero_attempts_never_follow() {
    let mut lp = Redirect::new(0).begin(get("https://h/"));
    assert!(matches!(lp.on_response(&moved(308, "/x")), Decision::TooManyRedirects));
}
