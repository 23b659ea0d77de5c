use kiteconnect::connect::KiteConnect;

fn mock_hook() {}

#[test]
fn test_set_access_token() {
    let mut kiteconnect = KiteConnect::<fn()>::new("key", "token");
    assert_eq!(kiteconnect.access_token(), "token");
    kiteconnect.set_access_token("my_token");
    assert_eq!(kiteconnect.access_token(), "my_token");
}

#[test]
fn test_session_expiry_hook() {
    let mut kiteconnect = KiteConnect::<fn()>::new("key", "token");
    assert_eq!(kiteconnect.session_expiry_hook(), None);

    kiteconnect.set_session_expiry_hook(mock_hook);
    assert_ne!(kiteconnect.session_expiry_hook(), None);
}

#[test]
fn test_login_url() {
    let kiteconnect = KiteConnect::<fn()>::new("key", "token");
    assert_eq!(kiteconnect.login_url(), "https://kite.trade/connect/login?api_key=key&v3");
}

#[test]
fn new_keeps_both_credentials() {
    let kiteconnect = KiteConnect::<fn()>::new("key", "token");
    assert_eq!(kiteconnect.api_key(), "key");
    assert_eq!(kiteconnect.access_token(), "token");
}

#[test]
fn default_holds_placeholders() {
    let kiteconnect = KiteConnect::<fn()>::default();
    assert_eq!(kiteconnect.api_key(), "<API-KEY>");
    assert_eq!(kiteconnect.access_token(), "<ACCESS-TOKEN>");
    assert_eq!(kiteconnect.session_expiry_hook(), None);
}

#[test]
fn set_access_token_keeps_key_and_hook() {
    let mut kiteconnect = KiteConnect::<fn()>::new("key", "token");
    kiteconnect.set_session_expiry_hook(mock_hook);
    kiteconnect.set_access_token("other");
    assert_eq!(kiteconnect.api_key(), "key");
    assert!(kiteconnect.session_expiry_hook().is_some());
    assert_eq!(kiteconnect.login_url(), "https://kite.trade/connect/login?api_key=key&v3");
}

#[test]
fn login_url_of_empty_key() {
    let kiteconnect = KiteConnect::<fn()>::new("", "");
    assert_eq!(kiteconnect.login_url(), "https://kite.trade/connect/login?api_key=&v3");
}
