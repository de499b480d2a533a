use twitch_oauth2::Scope;

#[test]
fn custom_scope() {
    assert_eq!(
        Scope::Other("custom_scope".to_string()),
        Scope::parse("custom_scope".to_string())
    )
}

#[test]
fn roundabout() {
    for scope in Scope::all() {
        assert_eq!(scope, Scope::parse(scope.as_str().to_string()))
    }
}

#[test]
fn no_deprecated() {
    for scope in Scope::all() {
        assert!(scope != Scope::ChannelSubscriptions)
    }
}

#[test]
fn parse_known_scope() {
    assert_eq!(Scope::parse("chat:edit".to_string()), Scope::ChatEdit);
    assert_eq!(
        Scope::parse("moderator:read:followers".to_string()),
        Scope::ModeratorReadFollowers
    );
}

#[test]
fn equality_is_by_canonical_string() {
    assert_eq!(Scope::Other("chat:edit".to_string()), Scope::ChatEdit);
    assert!(Scope::ChatEdit != Scope::ChatRead);
}

#[test]
fn all_has_no_duplicates() {
    let all = Scope::all();
    for (i, a) in all.iter().enumerate() {
        for b in all.iter().skip(i + 1) {
            assert!(a != b);
        }
    }
}

#[test]
fn join_scopes_spaces() {
    assert_eq!(
        twitch_oauth2::scopes::join_scopes(&[Scope::ChatEdit, Scope::ChatRead]),
        "chat:edit chat:read"
    );
    assert_eq!(twitch_oauth2::scopes::join_scopes(&[]), "");
    assert_eq!(
        twitch_oauth2::scopes::join_scopes(&[Scope::UserEdit]),
        "user:edit"
    );
}

#[test]
fn from_string_parses() {
    assert_eq!(Scope::from("chat:edit".to_string()), Scope::ChatEdit);
    assert_eq!(
        Scope::from("made_up".to_string()),
        Scope::Other("made_up".to_string())
    );
}
