use sdl_android_pack::signing::apksigner_args;
use sdl_android_pack::signing::build_tool_path;
use sdl_android_pack::signing::keytool_args;
use sdl_android_pack::signing::lex_leq_str;
use sdl_android_pack::signing::resolve_credential;
use sdl_android_pack::signing::select_tools_version;
use sdl_android_pack::signing::signing_action;
use sdl_android_pack::signing::signing_advance;
use sdl_android_pack::signing::zipalign_args;
use sdl_android_pack::signing::SignError;
use sdl_android_pack::signing::SigningAction;
use sdl_android_pack::signing::SigningState;

#[test]
fn tools_version_is_the_lexicographic_maximum() {
    let entries = vec![
        "29.0.2".to_string(),
        "30.0.3".to_string(),
        "28.0.0".to_string(),
    ];
    assert_eq!(select_tools_version(&entries), Some("30.0.3".to_string()));
    assert_eq!(select_tools_version(&Vec::new()), None);
    assert_eq!(
        select_tools_version(&vec!["25.0.1".to_string()]),
        Some("25.0.1".to_string())
    );
}

#[test]
fn lexicographic_order_is_by_code_point() {
    assert!(lex_leq_str("29.0.2", "30.0.3"));
    assert!(!lex_leq_str("30.0.3", "29.0.2"));
    assert!(lex_leq_str("30", "30.0.3"));
    assert!(lex_leq_str("30.0.3", "30.0.3"));
}

#[test]
fn supplied_keystore_is_used_verbatim_and_needs_its_password() {
    let plan = resolve_credential(
        Some("my.jks".to_string()),
        Some("secret".to_string()),
        "rel",
        false,
    )
    .unwrap();
    assert_eq!(plan.key_file, "my.jks");
    assert_eq!(plan.key_pass, "secret");
    assert!(!plan.generate);

    assert_eq!(
        resolve_credential(Some("my.jks".to_string()), None, "rel", false),
        Err(SignError::MissingKeystorePassword)
    );
}

#[test]
fn missing_keystore_is_generated_at_the_conventional_path() {
    let plan = resolve_credential(None, None, "rel", false).unwrap();
    assert_eq!(plan.key_file, "rel/app-release.jks");
    assert_eq!(plan.key_pass, "pass:android");
    assert!(plan.generate);

    let plan = resolve_credential(None, None, "rel", true).unwrap();
    assert!(!plan.generate);
}

#[test]
fn tool_invocations_use_the_documented_fixed_arguments() {
    assert_eq!(
        build_tool_path("/sdk", "30.0.3", "zipalign"),
        "/sdk/build-tools/30.0.3/zipalign"
    );
    assert_eq!(keytool_args("rel/app-release.jks"), vec![
        "-genkey",
        "-dname",
        "CN=Unknown, OU=Unknown, O=Unknown, L=Unknown, S=Unknown, C=Unknown",
        "-storepass",
        "android",
        "-keystore",
        "rel/app-release.jks",
        "-keyalg",
        "RSA",
        "-keysize",
        "2048",
        "-validity",
        "10000",
    ]);
    assert_eq!(zipalign_args("rel"), vec![
        "-v",
        "-f",
        "-p",
        "4",
        "rel/app-release-unsigned.apk",
        "rel/app-release-unsigned-aligned.apk",
    ]);
    assert_eq!(apksigner_args("rel/app-release.jks", "pass:android", "rel"), vec![
        "sign",
        "-ks",
        "rel/app-release.jks",
        "-ks-pass",
        "pass:android",
        "-out",
        "rel/app-release.apk",
        "rel/app-release-unsigned-aligned.apk",
    ]);
}

#[test]
fn release_scenario_aligns_then_signs_exactly_once() {
    let mut state = SigningState::NeedCredential;
    let mut actions: Vec<SigningAction> = Vec::new();
    while let Some(action) = signing_action(state) {
        actions.push(action);
        state = signing_advance(state, true);
    }
    assert_eq!(state, SigningState::Signed);
    assert_eq!(
        actions,
        vec![
            SigningAction::ResolveCredential,
            SigningAction::Align,
            SigningAction::Sign,
        ]
    );
}

#[test]
fn terminal_states_ask_for_nothing() {
    assert_eq!(signing_action(SigningState::Signed), None);
    assert_eq!(signing_action(SigningState::Failed), None);
    assert_eq!(
        signing_action(SigningState::CredentialResolved),
        Some(SigningAction::Align)
    );
}

#[test]
fn any_failing_step_is_terminal() {
    assert_eq!(
        signing_advance(SigningState::CredentialResolved, false),
        SigningState::Failed
    );
    assert_eq!(signing_advance(SigningState::Aligned, false), SigningState::Failed);
    assert_eq!(signing_advance(SigningState::Failed, true), SigningState::Failed);
}
