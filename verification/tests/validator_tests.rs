use twitch_oauth2::{Scope, Validator};

fn leaf(s: Scope) -> Validator {
    Validator::scope(s)
}

fn all_of(children: Vec<Validator>) -> Validator {
    Validator::all_multiple(children)
}

fn any_of(children: Vec<Validator>) -> Validator {
    Validator::any_multiple(children)
}

#[test]
fn valid_basic() {
    let scopes = &[Scope::ChatEdit, Scope::ChatRead];
    let validator = all_of(vec![leaf(Scope::ChatEdit), leaf(Scope::ChatRead)]);
    assert!(validator.matches(scopes));
}

#[test]
fn valid_all() {
    let scopes = &[Scope::ChatEdit, Scope::ChatRead];
    let validator = all_of(vec![leaf(Scope::ChatEdit), leaf(Scope::ChatRead)]);
    assert!(validator.matches(scopes));
}

#[test]
fn valid_any() {
    let scopes = &[Scope::ChatEdit, Scope::ModerationRead];
    let validator = all_of(vec![
        leaf(Scope::ChatEdit),
        any_of(vec![leaf(Scope::ChatRead), leaf(Scope::ModerationRead)]),
    ]);
    assert!(validator.matches(scopes));
}

#[test]
fn valid_not() {
    let scopes = &[Scope::ChannelEditCommercial, Scope::ChatRead];
    let validator = Validator::not(leaf(Scope::ChatEdit));
    assert!(validator.matches(scopes));
}

#[test]
fn valid_strange() {
    let scopes = &[Scope::ChatEdit, Scope::ModerationRead, Scope::UserEdit];
    let scopes_1 = &[Scope::ChatEdit, Scope::ChatRead];
    let validator = all_of(vec![
        leaf(Scope::ChatEdit),
        any_of(vec![
            leaf(Scope::ChatRead),
            all_of(vec![leaf(Scope::ModerationRead), leaf(Scope::UserEdit)]),
        ]),
    ]);
    assert!(validator.matches(scopes));
    assert!(validator.matches(scopes_1));
}

#[test]
fn valid_strange_not() {
    let scopes = &[Scope::ModerationRead, Scope::UserEdit];
    let scopes_1 = &[Scope::ChatEdit, Scope::ChatRead];
    let validator = all_of(vec![
        Validator::not(leaf(Scope::ChatEdit)),
        any_of(vec![
            leaf(Scope::ChatRead),
            all_of(vec![leaf(Scope::ModerationRead), leaf(Scope::UserEdit)]),
        ]),
    ]);
    assert!(validator.matches(scopes));
    assert!(!validator.matches(scopes_1));
}

#[test]
fn missing() {
    let scopes = &[Scope::ChatEdit, Scope::ModerationRead];
    let validator = all_of(vec![
        leaf(Scope::ChatEdit),
        any_of(vec![
            leaf(Scope::ChatRead),
            all_of(vec![leaf(Scope::ModerationRead), leaf(Scope::UserEdit)]),
        ]),
    ]);
    let missing = validator.missing(scopes).unwrap();
    assert_eq!(missing.to_text(), "(chat:read or user:edit)");

    let not_validator = all_of(vec![
        // we don't want both of these
        Validator::not(all_of(vec![
            leaf(Scope::ChatEdit),
            leaf(Scope::ModerationRead),
        ])),
        leaf(Scope::ChatRead),
        leaf(Scope::UserEdit),
        // we don't want user:edit or we want moderation:read
        any_of(vec![
            leaf(Scope::ModerationRead),
            Validator::not(leaf(Scope::UserEdit)),
        ]),
    ]);
    let missing = not_validator.missing(scopes).unwrap();
    assert_eq!(
        missing.to_text(),
        "(not((chat:edit and moderation:read)) and chat:read and user:edit)"
    );
}

#[test]
fn display() {
    let complex_validator = all_of(vec![
        leaf(Scope::ChatEdit),
        any_of(vec![
            leaf(Scope::ChatRead),
            all_of(vec![leaf(Scope::ModerationRead), leaf(Scope::UserEdit)]),
        ]),
    ]);
    assert_eq!(
        complex_validator.to_text(),
        "(chat:edit and (chat:read or (moderation:read and user:edit)))"
    );
}

#[test]
fn match_iff_missing_none() {
    let scope_sets: Vec<Vec<Scope>> = vec![
        vec![],
        vec![Scope::ChatEdit],
        vec![Scope::ChatRead],
        vec![Scope::ChatEdit, Scope::ChatRead],
        vec![Scope::ChatEdit, Scope::ModerationRead, Scope::UserEdit],
    ];
    let validators = vec![
        all_of(vec![leaf(Scope::ChatEdit), leaf(Scope::ChatRead)]),
        any_of(vec![leaf(Scope::ChatRead), leaf(Scope::UserEdit)]),
        Validator::not(leaf(Scope::ChatEdit)),
        all_of(vec![]),
        all_of(vec![
            Validator::not(leaf(Scope::ModerationRead)),
            any_of(vec![leaf(Scope::ChatEdit), leaf(Scope::UserEdit)]),
        ]),
    ];
    for v in &validators {
        for s in &scope_sets {
            assert_eq!(v.matches(s), v.missing(s).is_none());
        }
    }
}

#[test]
fn empty_all_always_matches() {
    let empty = all_of(vec![]);
    assert!(empty.matches(&[]));
    assert!(empty.matches(&[Scope::ChatRead]));
    assert!(empty.missing(&[]).is_none());
}

#[test]
fn empty_any_never_matches() {
    let empty = any_of(vec![]);
    assert!(!empty.matches(&[]));
    assert!(!empty.matches(&[Scope::ChatRead]));
    assert!(!empty.matches(&[Scope::ChatEdit, Scope::ChatRead]));
}

#[test]
fn not_negates_single_child() {
    let scope_sets: Vec<Vec<Scope>> = vec![
        vec![],
        vec![Scope::ChatEdit],
        vec![Scope::ChatRead],
        vec![Scope::ChatEdit, Scope::ChatRead],
    ];
    let children = vec![
        leaf(Scope::ChatEdit),
        all_of(vec![leaf(Scope::ChatEdit), leaf(Scope::ChatRead)]),
        any_of(vec![leaf(Scope::ChatEdit), leaf(Scope::ChatRead)]),
    ];
    for c in &children {
        let negated = Validator::not(c.clone());
        for s in &scope_sets {
            assert_eq!(negated.matches(s), !c.matches(s));
        }
    }
}

#[test]
fn residual_never_matches_same_scopes() {
    let scopes = &[Scope::ChatEdit];
    let validators = vec![
        all_of(vec![leaf(Scope::ChatEdit), leaf(Scope::ChatRead)]),
        any_of(vec![leaf(Scope::ChatRead), leaf(Scope::UserEdit)]),
        Validator::not(leaf(Scope::ChatEdit)),
    ];
    for v in &validators {
        let residual = v.missing(scopes).unwrap();
        assert!(!residual.matches(scopes));
    }
}

#[test]
fn residual_matches_extension() {
    let scopes = &[Scope::ChatEdit];
    let validator = all_of(vec![
        leaf(Scope::ChatEdit),
        leaf(Scope::ChatRead),
        any_of(vec![leaf(Scope::ModerationRead), leaf(Scope::UserEdit)]),
    ]);
    let residual = validator.missing(scopes).unwrap();
    let extended = &[
        Scope::ChatEdit,
        Scope::ChatRead,
        Scope::ModerationRead,
        Scope::UserEdit,
    ];
    assert!(residual.matches(extended));
    assert!(validator.matches(extended));
}

#[test]
fn singleton_all_unwraps() {
    let single = all_of(vec![leaf(Scope::ChatRead)]);
    let missing = single.missing(&[]).unwrap();
    // the residual is the bare scope, not a one-member group
    assert_eq!(missing.to_text(), "chat:read");
    let direct_missing = leaf(Scope::ChatRead).missing(&[]).unwrap();
    assert_eq!(missing.to_text(), direct_missing.to_text());
}

#[test]
fn display_shapes() {
    let pair = all_of(vec![leaf(Scope::ChatEdit), leaf(Scope::ChatRead)]);
    assert_eq!(pair.to_text(), "(chat:edit and chat:read)");
    let or_not = any_of(vec![
        leaf(Scope::ChatEdit),
        Validator::not(leaf(Scope::ChatRead)),
    ]);
    assert_eq!(or_not.to_text(), "(chat:edit or not(chat:read))");
}

#[test]
fn scenario_matched_pair() {
    let v = all_of(vec![leaf(Scope::ChatEdit), leaf(Scope::ChatRead)]);
    let s = &[Scope::ChatEdit, Scope::ChatRead];
    assert!(v.matches(s));
    assert!(v.missing(s).is_none());
}

#[test]
fn scenario_one_missing_leaf() {
    let v = all_of(vec![leaf(Scope::ChatEdit), leaf(Scope::ChatRead)]);
    let s = &[Scope::ChatEdit];
    assert!(!v.matches(s));
    let missing = v.missing(s).unwrap();
    assert_eq!(missing.to_text(), "chat:read");
}

#[test]
fn scenario_missing_alternatives() {
    let v = all_of(vec![
        leaf(Scope::ChatEdit),
        any_of(vec![leaf(Scope::ChatRead), leaf(Scope::UserEdit)]),
    ]);
    let s = &[Scope::ChatEdit];
    let missing = v.missing(s).unwrap();
    assert_eq!(missing.to_text(), "(chat:read or user:edit)");
}

#[test]
fn scenario_not_forbids_present_scope() {
    let v = Validator::not(leaf(Scope::ChatEdit));
    assert!(v.matches(&[Scope::ChatRead]));
    let s = &[Scope::ChatEdit];
    assert!(!v.matches(s));
    let missing = v.missing(s).unwrap();
    assert_eq!(missing.to_text(), "not(chat:edit)");
}

#[test]
fn to_validator_is_identity() {
    let v = leaf(Scope::ChatEdit).to_validator();
    assert!(v.matches(&[Scope::ChatEdit]));
    assert!(!v.matches(&[Scope::ChatRead]));
}

#[test]
fn clone_preserves_meaning() {
    let v = all_of(vec![
        Validator::not(leaf(Scope::ChatEdit)),
        any_of(vec![leaf(Scope::ChatRead), leaf(Scope::UserEdit)]),
    ]);
    let c = v.clone();
    assert_eq!(v.to_text(), c.to_text());
    let s = &[Scope::UserEdit];
    assert_eq!(v.matches(s), c.matches(s));
}

#[test]
fn from_scope_is_leaf() {
    let v = Validator::from(Scope::ChatEdit);
    assert!(v.matches(&[Scope::ChatEdit]));
    assert!(!v.matches(&[Scope::ChatRead]));
    assert_eq!(v.to_text(), "chat:edit");
}
