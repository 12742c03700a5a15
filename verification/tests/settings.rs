use ecmascript_chunk::contexts::{
    client_defines, enable_react_refresh, foreign_code_context_condition,
    get_client_asset_context, get_client_compile_time_info, get_client_import_map,
    get_client_module_options_context, get_client_resolve_options_context, ContextCondition,
    DefineValue, ImportAlias, NodeEnv, SourceTransform,
};
use ecmascript_chunk::logout::{
    logout, selection_items, selection_label, LogoutAction, LogoutEvent, LogoutState,
};

#[test]
fn node_env_names() {
    assert_eq!(NodeEnv::Development.to_string(), "development");
    assert_eq!(NodeEnv::Production.to_string(), "production");
}

#[test]
fn defines_carry_the_mode() {
    assert_eq!(
        client_defines(&NodeEnv::Production),
        vec![
            (String::from("process.turbopack"), DefineValue::Bool(true)),
            (String::from("process.env.TURBOPACK"), DefineValue::Bool(true)),
            (String::from("process.env.NODE_ENV"), DefineValue::Text(String::from("production"))),
        ]
    );
    assert_eq!(
        client_defines(&NodeEnv::Development)[2].1,
        DefineValue::Text(String::from("development"))
    );
}

fn singleton(package: &str, context: &str) -> ImportAlias {
    ImportAlias::Singleton { package: String::from(package), context: String::from(context) }
}

fn client_import_map(project: &str) -> Vec<ImportAlias> {
    vec![
        singleton("@swc/helpers", project),
        singleton("styled-jsx", project),
        singleton("react", project),
        singleton("react-dom", project),
        ImportAlias::RuntimeWildcard {
            prefix: String::from("@vercel/turbopack-ecmascript-runtime/"),
            target: String::from("./*"),
        },
    ]
}

#[test]
fn foreign_code_is_under_node_modules() {
    assert_eq!(
        foreign_code_context_condition(),
        ContextCondition::InDirectory(String::from("node_modules"))
    );
}

#[test]
fn import_map_of_the_client() {
    assert_eq!(get_client_import_map("/app"), client_import_map("/app"));
}

#[test]
fn resolve_options_of_the_client() {
    let r = get_client_resolve_options_context("/app");
    assert!(r.options.enable_typescript && r.options.enable_react);
    assert!(r.options.enable_node_modules && r.options.browser && r.options.module);
    assert_eq!(r.options.custom_conditions, vec!["development"]);
    assert_eq!(r.options.import_map, client_import_map("/app"));
    assert_eq!(r.rules.len(), 1);
    assert_eq!(r.rules[0].0, ContextCondition::InDirectory(String::from("node_modules")));
    let foreign = &r.rules[0].1;
    assert!(!foreign.enable_typescript && !foreign.enable_react);
    assert!(foreign.enable_node_modules && foreign.browser && foreign.module);
    assert_eq!(foreign.custom_conditions, vec!["development"]);
    assert_eq!(foreign.import_map, client_import_map("/app"));
}

#[test]
fn module_options_of_the_client() {
    let r = get_client_module_options_context(NodeEnv::Development, true);
    assert_eq!(r.options.enable_jsx, Some(true));
    assert!(r.options.enable_postcss_transform && r.options.enable_typescript_transform);
    assert_eq!(
        r.options.source_transforms,
        vec![
            SourceTransform::Emotion,
            SourceTransform::StyledComponents,
            SourceTransform::StyledJsx { use_lightningcss: false },
        ]
    );
    assert_eq!(r.rules.len(), 1);
    assert_eq!(r.rules[0].0, ContextCondition::InDirectory(String::from("node_modules")));
    assert_eq!(r.rules[0].1.enable_jsx, None);
    assert!(!r.rules[0].1.enable_postcss_transform);
    assert!(!r.rules[0].1.enable_typescript_transform);
    assert!(r.rules[0].1.source_transforms.is_empty());
    let production = get_client_module_options_context(NodeEnv::Production, true);
    assert_eq!(production.options.enable_jsx, Some(false));
    let missing = get_client_module_options_context(NodeEnv::Development, false);
    assert_eq!(missing.options.enable_jsx, Some(false));
}

#[test]
fn compile_time_info_of_the_client() {
    let info = get_client_compile_time_info(String::from("last 2 versions"), NodeEnv::Production);
    assert!(info.environment.dom);
    assert!(!info.environment.web_worker);
    assert!(!info.environment.service_worker);
    assert_eq!(info.environment.browserslist_query, "last 2 versions");
    assert_eq!(info.defines, client_defines(&NodeEnv::Production));
}

#[test]
fn asset_context_of_the_client() {
    let info = get_client_compile_time_info(String::from("defaults"), NodeEnv::Development);
    let context = get_client_asset_context("/app", info, NodeEnv::Development, true);
    assert_eq!(context.layer, "client");
    assert_eq!(
        context.compile_time_info,
        get_client_compile_time_info(String::from("defaults"), NodeEnv::Development)
    );
    assert_eq!(context.resolve_options_context, get_client_resolve_options_context("/app"));
    assert_eq!(
        context.module_options_context,
        get_client_module_options_context(NodeEnv::Development, true)
    );
}

#[test]
fn react_refresh_only_in_development() {
    assert!(enable_react_refresh(NodeEnv::Development, true));
    assert!(!enable_react_refresh(NodeEnv::Development, false));
    assert!(!enable_react_refresh(NodeEnv::Production, true));
    assert!(!enable_react_refresh(NodeEnv::Production, false));
}

#[test]
fn logout_with_one_token_asks_nothing() {
    let (state, action) = logout(LogoutState::Reading, LogoutEvent::TokensRead { count: 1 });
    assert_eq!(action, LogoutAction::RemoveAndWrite { index: 0 });
    assert_eq!(state, LogoutState::Writing { asked: false });
    assert_eq!(logout(state, LogoutEvent::Written), (LogoutState::Done, LogoutAction::Finish));
    assert_eq!(logout(state, LogoutEvent::WriteFailed), (LogoutState::Done, LogoutAction::Fail));
}

#[test]
fn logout_with_more_tokens_asks_and_confirms() {
    let (state, action) = logout(LogoutState::Reading, LogoutEvent::TokensRead { count: 3 });
    assert_eq!((state, action), (LogoutState::Asking { count: 3 }, LogoutAction::Ask));
    let (state, action) = logout(state, LogoutEvent::Selected { index: 2 });
    assert_eq!(action, LogoutAction::RemoveAndWrite { index: 2 });
    assert_eq!(state, LogoutState::Writing { asked: true });
    assert_eq!(
        logout(state, LogoutEvent::Written),
        (LogoutState::Done, LogoutAction::ConfirmAndFinish)
    );
    assert_eq!(logout(state, LogoutEvent::WriteFailed), (LogoutState::Done, LogoutAction::Fail));
    assert_eq!(
        logout(LogoutState::Reading, LogoutEvent::TokensRead { count: 0 }),
        (LogoutState::Asking { count: 0 }, LogoutAction::Ask)
    );
}

#[test]
fn logout_ignores_what_does_not_belong() {
    assert_eq!(
        logout(LogoutState::Reading, LogoutEvent::Written),
        (LogoutState::Reading, LogoutAction::Ignore)
    );
    assert_eq!(
        logout(LogoutState::Done, LogoutEvent::TokensRead { count: 1 }),
        (LogoutState::Done, LogoutAction::Ignore)
    );
    assert_eq!(
        logout(LogoutState::Asking { count: 2 }, LogoutEvent::Written),
        (LogoutState::Asking { count: 2 }, LogoutAction::Ignore)
    );
}

#[test]
fn logout_choices() {
    assert_eq!(selection_label("vercel.com", "abc***"), "vercel.com (abc***)");
    let displays = vec![
        (String::from("vercel.com"), String::from("abc***")),
        (String::from("example.com"), String::from("xyz***")),
    ];
    assert_eq!(selection_items(&displays), vec!["vercel.com (abc***)", "example.com (xyz***)"]);
    assert_eq!(selection_items(&vec![]), Vec::<String>::new());
}

