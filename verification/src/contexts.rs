//! The settings of the client-side build that do not depend on the toolchain around them.
use vstd::prelude::*;
use vstd::string::StringExecFns;

verus! {

/// The mode that the bundled code runs in.
#[derive(Clone, Copy, Debug, PartialEq, Eq, Structural, Hash)]
pub enum NodeEnv {
    Development,
    Production,
}

impl NodeEnv {
    /// The name of the mode, as the bundled code sees it.
    pub open spec fn text(self) -> Seq<char> {
        match self {
            NodeEnv::Development => "development"@,
            NodeEnv::Production => "production"@,
        }
    }

    /// The name of the mode, as the bundled code sees it.
    pub fn to_string(&self) -> (r: String)
        ensures
            r@ == self.text(),
    {
        match self {
            NodeEnv::Development => String::from_str("development"),
            NodeEnv::Production => String::from_str("production"),
        }
    }
}

/// The value of a compile-time define.
#[derive(Debug, PartialEq, Eq)]
pub enum DefineValue {
    Bool(bool),
    Text(String),
}

/// The mathematical value of a [`DefineValue`].
pub enum DefineValueView {
    Bool(bool),
    Text(Seq<char>),
}

impl View for DefineValue {
    type V = DefineValueView;

    open spec fn view(&self) -> DefineValueView {
        match self {
            DefineValue::Bool(b) => DefineValueView::Bool(*b),
            DefineValue::Text(s) => DefineValueView::Text(s@),
        }
    }
}

/// The defines of the client build, as name and value, in order.
pub open spec fn client_defines_view(node_env: NodeEnv) -> Seq<(Seq<char>, DefineValueView)> {
    seq![
        ("process.turbopack"@, DefineValueView::Bool(true)),
        ("process.env.TURBOPACK"@, DefineValueView::Bool(true)),
        ("process.env.NODE_ENV"@, DefineValueView::Text(node_env.text())),
    ]
}

/// The views of a sequence of defines, element by element.
pub open spec fn defines_view(v: Seq<(String, DefineValue)>) -> Seq<(Seq<char>, DefineValueView)> {
    v.map_values(|d: (String, DefineValue)| (d.0@, d.1@))
}

/// The compile-time defines of the client build: the two bundler flags, and the mode.
pub fn client_defines(node_env: &NodeEnv) -> (r: Vec<(String, DefineValue)>)
    ensures
        defines_view(r@) == client_defines_view(*node_env),
{
    let mut out: Vec<(String, DefineValue)> = Vec::new();
    out.push((String::from_str("process.turbopack"), DefineValue::Bool(true)));
    out.push((String::from_str("process.env.TURBOPACK"), DefineValue::Bool(true)));
    out.push((String::from_str("process.env.NODE_ENV"), DefineValue::Text(node_env.to_string())));
    assert(defines_view(out@) =~= client_defines_view(*node_env));
    out
}

/// Where a set of options applies.
#[derive(Debug, PartialEq, Eq)]
pub enum ContextCondition {
    /// In every directory of this name.
    InDirectory(String),
}

/// The mathematical value of a [`ContextCondition`].
pub enum ContextConditionView {
    InDirectory(Seq<char>),
}

impl View for ContextCondition {
    type V = ContextConditionView;

    open spec fn view(&self) -> ContextConditionView {
        match self {
            ContextCondition::InDirectory(name) => ContextConditionView::InDirectory(name@),
        }
    }
}

/// The condition under which code counts as foreign: it lies in a directory of installed
/// packages.
pub fn foreign_code_context_condition() -> (r: ContextCondition)
    ensures
        r@ == ContextConditionView::InDirectory("node_modules"@),
{
    ContextCondition::InDirectory(String::from_str("node_modules"))
}

/// One entry of an import map.
#[derive(Debug, PartialEq, Eq)]
pub enum ImportAlias {
    /// `package` always resolves to the one copy found from the directory `context`.
    Singleton { package: String, context: String },
    /// Every request that starts with `prefix` resolves to `target` in the embedded runtime.
    RuntimeWildcard { prefix: String, target: String },
}

/// The mathematical value of an [`ImportAlias`].
pub enum ImportAliasView {
    Singleton { package: Seq<char>, context: Seq<char> },
    RuntimeWildcard { prefix: Seq<char>, target: Seq<char> },
}

impl View for ImportAlias {
    type V = ImportAliasView;

    open spec fn view(&self) -> ImportAliasView {
        match self {
            ImportAlias::Singleton { package, context } => ImportAliasView::Singleton {
                package: package@,
                context: context@,
            },
            ImportAlias::RuntimeWildcard { prefix, target } => ImportAliasView::RuntimeWildcard {
                prefix: prefix@,
                target: target@,
            },
        }
    }
}

/// The views of a sequence of aliases, element by element.
pub open spec fn aliases_view(v: Seq<ImportAlias>) -> Seq<ImportAliasView> {
    v.map_values(|a: ImportAlias| a@)
}

/// The import map of the client build for a project at `project_path`.
pub open spec fn client_import_map_view(project_path: Seq<char>) -> Seq<ImportAliasView> {
    seq![
        ImportAliasView::Singleton { package: "@swc/helpers"@, context: project_path },
        ImportAliasView::Singleton { package: "styled-jsx"@, context: project_path },
        ImportAliasView::Singleton { package: "react"@, context: project_path },
        ImportAliasView::Singleton { package: "react-dom"@, context: project_path },
        ImportAliasView::RuntimeWildcard {
            prefix: "@vercel/turbopack-ecmascript-runtime/"@,
            target: "./*"@,
        },
    ]
}

/// The import map of the client build: the four packages of which only one copy may be
/// loaded, found from the project, and the embedded runtime.
pub fn get_client_import_map(project_path: &str) -> (r: Vec<ImportAlias>)
    ensures
        aliases_view(r@) == client_import_map_view(project_path@),
{
    let mut out: Vec<ImportAlias> = Vec::new();
    out.push(
        ImportAlias::Singleton {
            package: String::from_str("@swc/helpers"),
            context: String::from_str(project_path),
        },
    );
    out.push(
        ImportAlias::Singleton {
            package: String::from_str("styled-jsx"),
            context: String::from_str(project_path),
        },
    );
    out.push(
        ImportAlias::Singleton {
            package: String::from_str("react"),
            context: String::from_str(project_path),
        },
    );
    out.push(
        ImportAlias::Singleton {
            package: String::from_str("react-dom"),
            context: String::from_str(project_path),
        },
    );
    out.push(
        ImportAlias::RuntimeWildcard {
            prefix: String::from_str("@vercel/turbopack-ecmascript-runtime/"),
            target: String::from_str("./*"),
        },
    );
    assert(aliases_view(out@) =~= client_import_map_view(project_path@));
    out
}

/// How requests are resolved in one part of the project.
#[derive(Debug, PartialEq, Eq)]
pub struct ResolveOptions {
    pub enable_typescript: bool,
    pub enable_react: bool,
    pub enable_node_modules: bool,
    pub custom_conditions: Vec<String>,
    pub import_map: Vec<ImportAlias>,
    pub browser: bool,
    pub module: bool,
}

/// The mathematical value of a [`ResolveOptions`].
pub struct ResolveOptionsView {
    pub enable_typescript: bool,
    pub enable_react: bool,
    pub enable_node_modules: bool,
    pub custom_conditions: Seq<Seq<char>>,
    pub import_map: Seq<ImportAliasView>,
    pub browser: bool,
    pub module: bool,
}

impl View for ResolveOptions {
    type V = ResolveOptionsView;

    open spec fn view(&self) -> ResolveOptionsView {
        ResolveOptionsView {
            enable_typescript: self.enable_typescript,
            enable_react: self.enable_react,
            enable_node_modules: self.enable_node_modules,
            custom_conditions: self.custom_conditions@.map_values(|c: String| c@),
            import_map: aliases_view(self.import_map@),
            browser: self.browser,
            module: self.module,
        }
    }
}

/// How requests are resolved: the options that hold by default, and those that replace
/// them where a condition holds.
#[derive(Debug, PartialEq, Eq)]
pub struct ResolveOptionsContext {
    pub options: ResolveOptions,
    pub rules: Vec<(ContextCondition, ResolveOptions)>,
}

/// The options under which foreign code of the client build is resolved.
pub open spec fn client_foreign_resolve_options(project_path: Seq<char>) -> ResolveOptionsView {
    ResolveOptionsView {
        enable_typescript: false,
        enable_react: false,
        enable_node_modules: true,
        custom_conditions: seq!["development"@],
        import_map: client_import_map_view(project_path),
        browser: true,
        module: true,
    }
}

/// The options under which the project's own code is resolved in the client build: those of
/// foreign code, with TypeScript and React.
pub open spec fn client_resolve_options(project_path: Seq<char>) -> ResolveOptionsView {
    ResolveOptionsView {
        enable_typescript: true,
        enable_react: true,
        ..client_foreign_resolve_options(project_path)
    }
}

/// The resolve options of one part of the client build.
fn client_resolve_options_for(project_path: &str, own_code: bool) -> (r: ResolveOptions)
    ensures
        r@ == (if own_code {
            client_resolve_options(project_path@)
        } else {
            client_foreign_resolve_options(project_path@)
        }),
{
    let mut custom_conditions: Vec<String> = Vec::new();
    custom_conditions.push(String::from_str("development"));
    let r = ResolveOptions {
        enable_typescript: own_code,
        enable_react: own_code,
        enable_node_modules: true,
        custom_conditions,
        import_map: get_client_import_map(project_path),
        browser: true,
        module: true,
    };
    assert(r@.custom_conditions =~= seq!["development"@]);
    r
}

/// Whether `r` is how the client build of the project at `project_path` resolves requests.
pub open spec fn is_client_resolve_options_context(
    r: ResolveOptionsContext,
    project_path: Seq<char>,
) -> bool {
    &&& r.options@ == client_resolve_options(project_path)
    &&& r.rules@.len() == 1
    &&& r.rules@[0].0@ == ContextConditionView::InDirectory("node_modules"@)
    &&& r.rules@[0].1@ == client_foreign_resolve_options(project_path)
}

/// How the client build resolves requests: the project's own code with TypeScript and
/// React, and foreign code, by one rule, without them.
pub fn get_client_resolve_options_context(project_path: &str) -> (r: ResolveOptionsContext)
    ensures
        is_client_resolve_options_context(r, project_path@),
{
    let mut rules: Vec<(ContextCondition, ResolveOptions)> = Vec::new();
    rules.push((foreign_code_context_condition(), client_resolve_options_for(project_path, false)));
    ResolveOptionsContext { options: client_resolve_options_for(project_path, true), rules }
}

/// A transform of source code that the client build adds to the usual ones.
#[derive(Clone, Copy, Debug, PartialEq, Eq, Structural)]
pub enum SourceTransform {
    Emotion,
    StyledComponents,
    StyledJsx { use_lightningcss: bool },
}

/// How modules are transformed in one part of the project.
#[derive(Debug, PartialEq, Eq)]
pub struct ModuleOptions {
    /// Whether JSX is transformed, and if so whether components refresh in place.
    pub enable_jsx: Option<bool>,
    pub enable_postcss_transform: bool,
    pub enable_typescript_transform: bool,
    pub use_lightningcss: bool,
    pub source_transforms: Vec<SourceTransform>,
}

/// How modules are transformed: the options that hold by default, and those that replace
/// them where a condition holds.
#[derive(Debug, PartialEq, Eq)]
pub struct ModuleOptionsContext {
    pub options: ModuleOptions,
    pub rules: Vec<(ContextCondition, ModuleOptions)>,
}

/// Whether `r` is how the client build transforms modules in the mode `node_env`, the
/// refresh runtime found or not.
pub open spec fn is_client_module_options_context(
    r: ModuleOptionsContext,
    node_env: NodeEnv,
    runtime_found: bool,
) -> bool {
    &&& r.options.enable_jsx == Some(node_env == NodeEnv::Development && runtime_found)
    &&& r.options.enable_postcss_transform
    &&& r.options.enable_typescript_transform
    &&& !r.options.use_lightningcss
    &&& r.options.source_transforms@ == seq![
        SourceTransform::Emotion,
        SourceTransform::StyledComponents,
        SourceTransform::StyledJsx { use_lightningcss: false },
    ]
    &&& r.rules@.len() == 1
    &&& r.rules@[0].0@ == ContextConditionView::InDirectory("node_modules"@)
    &&& r.rules@[0].1.enable_jsx.is_none()
    &&& !r.rules@[0].1.enable_postcss_transform
    &&& !r.rules@[0].1.enable_typescript_transform
    &&& !r.rules@[0].1.use_lightningcss
    &&& r.rules@[0].1.source_transforms@.len() == 0
}

/// How the client build transforms modules. The project's own code gets JSX, with refresh
/// as `enable_react_refresh` says, PostCSS, TypeScript and the three style transforms;
/// foreign code, by one rule, gets none of them.
pub fn get_client_module_options_context(node_env: NodeEnv, runtime_found: bool) -> (r:
    ModuleOptionsContext)
    ensures
        is_client_module_options_context(r, node_env, runtime_found),
{
    let use_lightningcss = false;
    let foreign = ModuleOptions {
        enable_jsx: None,
        enable_postcss_transform: false,
        enable_typescript_transform: false,
        use_lightningcss,
        source_transforms: Vec::new(),
    };
    let mut source_transforms: Vec<SourceTransform> = Vec::new();
    source_transforms.push(SourceTransform::Emotion);
    source_transforms.push(SourceTransform::StyledComponents);
    source_transforms.push(SourceTransform::StyledJsx { use_lightningcss });
    assert(source_transforms@ =~= seq![
        SourceTransform::Emotion,
        SourceTransform::StyledComponents,
        SourceTransform::StyledJsx { use_lightningcss: false },
    ]);
    let mut rules: Vec<(ContextCondition, ModuleOptions)> = Vec::new();
    rules.push((foreign_code_context_condition(), foreign));
    ModuleOptionsContext {
        options: ModuleOptions {
            enable_jsx: Some(enable_react_refresh(node_env, runtime_found)),
            enable_postcss_transform: true,
            enable_typescript_transform: true,
            use_lightningcss,
            source_transforms,
        },
        rules,
    }
}

/// The browser that the client build compiles for.
#[derive(Debug, PartialEq, Eq)]
pub struct BrowserEnvironment {
    pub dom: bool,
    pub web_worker: bool,
    pub service_worker: bool,
    pub browserslist_query: String,
}

/// What is known of the client build at compile time: where it runs and its defines.
#[derive(Debug, PartialEq, Eq)]
pub struct CompileTimeInfo {
    pub environment: BrowserEnvironment,
    pub defines: Vec<(String, DefineValue)>,
}

/// What is known of the client build at compile time: it runs in a browser page, not in a
/// worker, for the browsers of the query, with the defines of the mode.
pub fn get_client_compile_time_info(browserslist_query: String, node_env: NodeEnv) -> (r:
    CompileTimeInfo)
    ensures
        r.environment.dom,
        !r.environment.web_worker,
        !r.environment.service_worker,
        r.environment.browserslist_query == browserslist_query,
        defines_view(r.defines@) == client_defines_view(node_env),
{
    CompileTimeInfo {
        environment: BrowserEnvironment {
            dom: true,
            web_worker: false,
            service_worker: false,
            browserslist_query,
        },
        defines: client_defines(&node_env),
    }
}

/// Whether the client build refreshes components in place: only in development, and only
/// where the refresh runtime was found.
pub fn enable_react_refresh(node_env: NodeEnv, runtime_found: bool) -> (r: bool)
    ensures
        r == (node_env == NodeEnv::Development && runtime_found),
{
    match node_env {
        NodeEnv::Development => runtime_found,
        NodeEnv::Production => false,
    }
}



/// Everything the client build needs to turn a source into a module.
#[derive(Debug, PartialEq, Eq)]
pub struct AssetContext {
    pub compile_time_info: CompileTimeInfo,
    pub module_options_context: ModuleOptionsContext,
    pub resolve_options_context: ResolveOptionsContext,
    pub layer: String,
}

/// The asset context of the client build: the given compile-time information, the module
/// and resolve options of the client build, and the layer of the client.
pub fn get_client_asset_context(
    project_path: &str,
    compile_time_info: CompileTimeInfo,
    node_env: NodeEnv,
    runtime_found: bool,
) -> (r: AssetContext)
    ensures
        r.compile_time_info == compile_time_info,
        is_client_module_options_context(r.module_options_context, node_env, runtime_found),
        is_client_resolve_options_context(r.resolve_options_context, project_path@),
        r.layer@ == "client"@,
{
    AssetContext {
        compile_time_info,
        module_options_context: get_client_module_options_context(node_env, runtime_found),
        resolve_options_context: get_client_resolve_options_context(project_path),
        layer: String::from_str("client"),
    }
}

} // verus!
