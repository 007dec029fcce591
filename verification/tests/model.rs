use argonath::model::{Session, User};

#[test]
fn user_copy_holds_the_same_fields() {
    let user = User { id: 7, github_login: "octocat".to_string() };
    let copy = user.clone();
    assert_eq!(copy.id, 7);
    assert_eq!(copy.github_login, "octocat");
    assert_eq!(user.id, copy.id);
}

#[test]
fn session_copy_holds_the_same_fields() {
    let session = Session {
        id: "sid-1".to_string(),
        user_id: 1,
        access_token: "AT1".to_string(),
        refresh_token: "RT1".to_string(),
        expires_at: None,
    };
    let copy = session.clone();
    assert_eq!(copy.id, "sid-1");
    assert_eq!(copy.user_id, 1);
    assert_eq!(copy.access_token, "AT1");
    assert_eq!(copy.refresh_token, "RT1");
    assert_eq!(copy.expires_at, None);
    assert_eq!(session.id, copy.id);
}
