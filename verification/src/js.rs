//! Planning the configuration of a JavaScript project: which packages are
//! installed and which files are written, given the package description
//! and the lock files that are there.

use vstd::prelude::*;
use crate::codec::{parse_document, parsed_json};
use crate::decode::{
    optional_text, optional_text_map, read_optional_text, read_optional_text_map, Decoded,
};
use crate::json::{Json, JsonView};
use crate::models::StringMap;
use crate::text::{str_eq, strings};
use crate::views::{opt_view, views};
use crate::words::{glue, glued};

verus! {

/// What this tool reads of a package description.
#[derive(Debug, PartialEq, Eq)]
pub struct PackageJson {
    pub the_type: Option<String>,
    pub dependencies: Option<StringMap>,
    pub dev_dependencies: Option<StringMap>,
}

/// What a `PackageJson` holds, its strings seen as character sequences.
pub struct PackageJsonView {
    pub the_type: Option<Seq<char>>,
    pub dependencies: Option<Map<Seq<char>, Seq<char>>>,
    pub dev_dependencies: Option<Map<Seq<char>, Seq<char>>>,
}

impl View for PackageJson {
    type V = PackageJsonView;

    open spec fn view(&self) -> PackageJsonView {
        PackageJsonView {
            the_type: opt_view(self.the_type),
            dependencies: opt_view(self.dependencies),
            dev_dependencies: opt_view(self.dev_dependencies),
        }
    }
}

/// Whether a map is there and has a key.
pub fn has_key(map: &Option<StringMap>, key: &str) -> (r: bool)
    ensures
        r == (map matches Some(m) && m@.contains_key(key@)),
{
    match map {
        Some(m) => m.get(key).is_some(),
        None => false,
    }
}

/// The package description that a document is.
pub open spec fn package_of(doc: JsonView) -> Decoded<PackageJsonView> {
    match doc {
        JsonView::Object(m) => {
            let the_type = optional_text(m, "type"@);
            let dependencies = optional_text_map(m, "dependencies"@);
            let dev_dependencies = optional_text_map(m, "devDependencies"@);
            if the_type is Err {
                Err(the_type->Err_0)
            } else if dependencies is Err {
                Err(dependencies->Err_0)
            } else if dev_dependencies is Err {
                Err(dev_dependencies->Err_0)
            } else {
                Ok(
                    PackageJsonView {
                        the_type: the_type->Ok_0,
                        dependencies: dependencies->Ok_0,
                        dev_dependencies: dev_dependencies->Ok_0,
                    },
                )
            }
        },
        _ => Err(Seq::empty()),
    }
}

impl PackageJson {
    /// Whether the package has a dependency, for use or for development.
    pub open spec fn depends_on(self, name: Seq<char>) -> bool {
        (self.dependencies matches Some(m) && m@.contains_key(name)) || (
        self.dev_dependencies matches Some(m) && m@.contains_key(name))
    }

    /// Whether the package is made of ES modules.
    pub open spec fn esm(self) -> bool {
        self.the_type matches Some(t) && t@ == "module"@
    }

    /// Reads a package description out of a document. An error is the key
    /// of the member that has the wrong type; it is empty where the
    /// document is no object.
    pub fn from_document(doc: &Json) -> (r: Result<PackageJson, String>)
        ensures
            r matches Ok(p) ==> package_of(doc@) == Ok::<PackageJsonView, Seq<char>>(p@),
            r matches Err(e) ==> package_of(doc@) == Err::<PackageJsonView, Seq<char>>(e@),
    {
        match doc {
            Json::Object(members) => {
                let the_type = read_optional_text(members, "type")?;
                let dependencies = read_optional_text_map(members, "dependencies")?;
                let dev_dependencies = read_optional_text_map(members, "devDependencies")?;
                Ok(PackageJson { the_type, dependencies, dev_dependencies })
            },
            _ => Err(String::new()),
        }
    }

    /// Reads a package description from the text of `package.json`.
    pub fn new(text: &str) -> (r: Result<PackageJson, String>)
        ensures
            r is Ok == (parsed_json(text@) is Some && package_of(parsed_json(text@)->0) is Ok),
            r matches Ok(p) ==> package_of(parsed_json(text@)->0) == Ok::<
                PackageJsonView,
                Seq<char>,
            >(p@),
            r matches Err(e) ==> (parsed_json(text@) matches Some(doc) ==> package_of(doc) == Err::<
                PackageJsonView,
                Seq<char>,
            >(e@)),
    {
        let doc = parse_document(text)?;
        PackageJson::from_document(&doc)
    }

    /// Whether the package has a dependency, for use or for development.
    pub fn has_dependency(&self, name: &str) -> (r: bool)
        ensures
            r == self.depends_on(name@),
    {
        has_key(&self.dependencies, name) || has_key(&self.dev_dependencies, name)
    }

    /// Whether the package is made of ES modules.
    pub fn is_esm(&self) -> (r: bool)
        ensures
            r == self.esm(),
    {
        match &self.the_type {
            Some(t) => str_eq(t.as_str(), "module"),
            None => false,
        }
    }
}

/// The options of the configuration of a JavaScript project.
#[derive(Debug, PartialEq, Eq)]
pub struct JsConfigOptions {
    /// Do not install the dependencies.
    pub skip_dependencies: bool,
}

/// What can be done for a JavaScript project.
#[derive(Debug, PartialEq, Eq)]
pub enum JsSubcommand {
    /// Write the recommended configuration files.
    Config(JsConfigOptions),
}

/// A step of the plan.
#[derive(Debug, PartialEq, Eq)]
pub enum JsStep {
    /// Tell the user something.
    Say(String),
    /// Run a program and wait for it.
    Run { program: String, arguments: Vec<String> },
    /// Write a file.
    Write { path: String, content: String },
}

/// What a `JsStep` holds, its strings seen as character sequences.
pub enum JsStepView {
    Say(Seq<char>),
    Run { program: Seq<char>, arguments: Seq<Seq<char>> },
    Write { path: Seq<char>, content: Seq<char> },
}

impl View for JsStep {
    type V = JsStepView;

    open spec fn view(&self) -> JsStepView {
        match self {
            JsStep::Say(text) => JsStepView::Say(text@),
            JsStep::Run { program, arguments } => JsStepView::Run {
                program: program@,
                arguments: views(arguments@),
            },
            JsStep::Write { path, content } => JsStepView::Write { path: path@, content: content@ },
        }
    }
}

/// The package manager of a project: the one whose lock file is there,
/// `yarn` before `pnpm`, and `npm` where there is none.
pub open spec fn package_manager(yarn_lock: bool, pnpm_lock: bool) -> Seq<char> {
    if yarn_lock {
        "yarn"@
    } else if pnpm_lock {
        "pnpm"@
    } else {
        "npm"@
    }
}

/// The packages that every project gets.
pub open spec fn common_packages() -> Seq<Seq<char>> {
    seq![
        "@swc/core@latest"@,
        "@swc/jest@latest"@,
        "@swc/cli@latest"@,
        "prettier@latest"@,
        "prettier-config-get-off-my-lawn@latest"@,
        "eslint@latest"@,
        "eslint-config-get-off-my-lawn@latest"@,
        "jest@latest"@,
        "chance@latest"@,
        "nodemon@latest"@,
        "prettier-plugin-packagejson@latest"@,
    ]
}

/// The packages that a TypeScript project gets besides.
pub open spec fn typescript_packages() -> Seq<Seq<char>> {
    seq![
        "typescript@latest"@,
        "@types/node16@latest"@,
        "@types/jest@latest"@,
        "@types/chance@latest"@,
    ]
}

/// What the user is told about the module system.
pub open spec fn module_notice(esm: bool) -> Seq<char> {
    glued(
        seq![
            "This repo appears to be using "@,
            if esm {
                "ES Modules"@
            } else {
                "Common JS"@
            },
            ". If this is incorrect, please set \"type\": \""@,
            if esm {
                "commonjs"@
            } else {
                "module"@
            },
            "\" in package.json."@,
        ],
    )
}

/// What the user is told about TypeScript.
pub open spec fn typescript_notice(typescript: bool) -> Seq<char> {
    glued(
        seq![
            "This repo "@,
            if typescript {
                "appears"@
            } else {
                "does not appear"@
            },
            " to be using TypeScript. If this is incorrect, please "@,
            if typescript {
                "remove"@
            } else {
                "add"@
            },
            " the \"typescript\" dependency in package.json."@,
        ],
    )
}

/// The configuration of the compiler.
pub open spec fn swc_config(esm: bool, typescript: bool) -> Seq<char> {
    glued(
        seq![
            "{\n    \"jsc\": {\n        \"parser\": {\n            \"syntax\": \""@,
            if typescript {
                "typescript"@
            } else {
                "ecmascript"@
            },
            "\"\n        },\n        \"target\": \""@,
            if esm {
                "es2020"@
            } else {
                "es5"@
            },
            "\"\n    },\n    \"minify\": true,\n    \"module\": {\n        \"strict\": true,\n        \"strictMode\": true,\n        \"type\": \""@,
            if esm {
                "es6"@
            } else {
                "commonjs"@
            },
            "\"\n    },\n    \"sourceMaps\": \"inline\"\n}"@,
        ],
    )
}

/// The configuration of TypeScript.
pub open spec fn tsconfig(esm: bool) -> Seq<char> {
    glued(
        seq![
            "{\n    \"$schema\": \"https://raw.githubusercontent.com/SchemaStore/schemastore/master/src/schemas/json/tsconfig.json\",\n    \"extends\": \"lsctl/tsconfig/"@,
            if esm {
                "esm"@
            } else {
                "cjs"@
            },
            "-server.json\"\n}"@,
        ],
    )
}

/// The configuration of the linter.
pub open spec fn eslint_config() -> Seq<char> {
    "module.exports = {\n    extends: ['get-off-my-lawn'],\n};\n"@
}

/// The configuration of the formatter.
pub open spec fn prettier_config() -> Seq<char> {
    "module.exports = {\n    ...require('prettier-config-get-off-my-lawn'),\n    plugins: [require('prettier-plugin-packagejson')],\n};\n"@
}

/// The extension of a script that is no ES module.
pub open spec fn script_extension(esm: bool) -> Seq<char> {
    if esm {
        "cjs"@
    } else {
        "js"@
    }
}

/// The steps that install the packages, unless that is skipped.
pub open spec fn install_steps(
    skip: bool,
    typescript: bool,
    manager: Seq<char>,
) -> Seq<JsStepView> {
    if skip {
        Seq::empty()
    } else {
        seq![
            JsStepView::Say("Install dependencies using "@ + manager),
            JsStepView::Run {
                program: manager,
                arguments: seq!["install"@, "-D"@] + common_packages() + (if typescript {
                    typescript_packages()
                } else {
                    Seq::empty()
                }),
            },
        ]
    }
}

/// The steps that write the configuration of TypeScript, where it is used.
pub open spec fn tsconfig_steps(esm: bool, typescript: bool) -> Seq<JsStepView> {
    if typescript {
        seq![
            JsStepView::Say("Creating a TSConfig"@),
            JsStepView::Write { path: "./tsconfig.json"@, content: tsconfig(esm) },
        ]
    } else {
        Seq::empty()
    }
}

/// The plan for a project: tell what was found, install the packages,
/// write the configuration of the compiler, of TypeScript where it is
/// used, of the linter and of the formatter.
pub open spec fn js_plan(
    skip: bool,
    esm: bool,
    typescript: bool,
    yarn_lock: bool,
    pnpm_lock: bool,
) -> Seq<
    JsStepView,
> {
    seq![JsStepView::Say(module_notice(esm)), JsStepView::Say(typescript_notice(typescript))]
        + install_steps(skip, typescript, package_manager(yarn_lock, pnpm_lock)) + seq![
        JsStepView::Say("Creating a SWC config"@),
        JsStepView::Write { path: "./.swcrc"@, content: swc_config(esm, typescript) },
    ] + tsconfig_steps(esm, typescript) + seq![
        JsStepView::Say("Creating a ESLint config"@),
        JsStepView::Write {
            path: "./.eslintrc."@ + script_extension(esm),
            content: eslint_config(),
        },
        JsStepView::Say("Creating a Prettier config"@),
        JsStepView::Write {
            path: "./.prettierrc."@ + script_extension(esm),
            content: prettier_config(),
        },
    ]
}

/// `a` followed by `b`.
fn concat(a: &str, b: &str) -> (r: String)
    ensures
        r@ == a@ + b@,
{
    let mut out = String::from_str(a);
    out.append(b);
    out
}

fn glue5(a: &str, b: &str, c: &str, d: &str, e: &str) -> (r: String)
    ensures
        r@ == glued(seq![a@, b@, c@, d@, e@]),
{
    let items = vec![a, b, c, d, e];
    let out = glue(&items);
    assert(Seq::new(items.len() as nat, |i: int| items[i]@) =~= seq![a@, b@, c@, d@, e@]);
    out
}

fn install_arguments(typescript: bool) -> (r: Vec<String>)
    ensures
        views(r@) == seq!["install"@, "-D"@] + common_packages() + (if typescript {
            typescript_packages()
        } else {
            Seq::empty()
        }),
{
    let mut items = vec![
        "install",
        "-D",
        "@swc/core@latest",
        "@swc/jest@latest",
        "@swc/cli@latest",
        "prettier@latest",
        "prettier-config-get-off-my-lawn@latest",
        "eslint@latest",
        "eslint-config-get-off-my-lawn@latest",
        "jest@latest",
        "chance@latest",
        "nodemon@latest",
        "prettier-plugin-packagejson@latest",
    ];
    if typescript {
        items.push("typescript@latest");
        items.push("@types/node16@latest");
        items.push("@types/jest@latest");
        items.push("@types/chance@latest");
    }
    let out = strings(&items);
    assert(views(out@) =~= seq!["install"@, "-D"@] + common_packages() + (if typescript {
        typescript_packages()
    } else {
        Seq::empty()
    }));
    out
}

/// The plan for a project, given its package description and which lock
/// files are there.
pub fn js_config_plan(
    options: &JsConfigOptions,
    package: &PackageJson,
    yarn_lock: bool,
    pnpm_lock: bool,
) -> (r: Vec<JsStep>)
    ensures
        views(r@) == js_plan(
            options.skip_dependencies,
            package.esm(),
            package.depends_on("typescript"@),
            yarn_lock,
            pnpm_lock,
        ),
{
    let esm = package.is_esm();
    let typescript = package.has_dependency("typescript");
    let manager = if yarn_lock {
        "yarn"
    } else if pnpm_lock {
        "pnpm"
    } else {
        "npm"
    };
    let extension = if esm {
        "cjs"
    } else {
        "js"
    };
    let mut plan: Vec<JsStep> = Vec::new();
    plan.push(
        JsStep::Say(
            glue5(
                "This repo appears to be using ",
                if esm {
                    "ES Modules"
                } else {
                    "Common JS"
                },
                ". If this is incorrect, please set \"type\": \"",
                if esm {
                    "commonjs"
                } else {
                    "module"
                },
                "\" in package.json.",
            ),
        ),
    );
    plan.push(
        JsStep::Say(
            glue5(
                "This repo ",
                if typescript {
                    "appears"
                } else {
                    "does not appear"
                },
                " to be using TypeScript. If this is incorrect, please ",
                if typescript {
                    "remove"
                } else {
                    "add"
                },
                " the \"typescript\" dependency in package.json.",
            ),
        ),
    );
    let ghost p1 = seq![
        JsStepView::Say(module_notice(esm)),
        JsStepView::Say(typescript_notice(typescript)),
    ];
    assert(views(plan@) =~= p1);
    if !options.skip_dependencies {
        plan.push(JsStep::Say(concat("Install dependencies using ", manager)));
        plan.push(
            JsStep::Run {
                program: String::from_str(manager),
                arguments: install_arguments(typescript),
            },
        );
    }
    let ghost p2 = p1 + install_steps(
        options.skip_dependencies,
        typescript,
        package_manager(yarn_lock, pnpm_lock),
    );
    assert(views(plan@) =~= p2);
    plan.push(JsStep::Say(String::from_str("Creating a SWC config")));
    plan.push(
        JsStep::Write {
            path: String::from_str("./.swcrc"),
            content: {
                let items = vec![
                    "{\n    \"jsc\": {\n        \"parser\": {\n            \"syntax\": \"",
                    if typescript {
                        "typescript"
                    } else {
                        "ecmascript"
                    },
                    "\"\n        },\n        \"target\": \"",
                    if esm {
                        "es2020"
                    } else {
                        "es5"
                    },
                    "\"\n    },\n    \"minify\": true,\n    \"module\": {\n        \"strict\": true,\n        \"strictMode\": true,\n        \"type\": \"",
                    if esm {
                        "es6"
                    } else {
                        "commonjs"
                    },
                    "\"\n    },\n    \"sourceMaps\": \"inline\"\n}",
                ];
                let out = glue(&items);
                assert(Seq::new(items.len() as nat, |i: int| items[i]@) =~= seq![
                    items[0]@,
                    items[1]@,
                    items[2]@,
                    items[3]@,
                    items[4]@,
                    items[5]@,
                    items[6]@,
                ]);
                out
            },
        },
    );
    let ghost p3 = p2 + seq![
        JsStepView::Say("Creating a SWC config"@),
        JsStepView::Write { path: "./.swcrc"@, content: swc_config(esm, typescript) },
    ];
    assert(views(plan@) =~= p3);
    if typescript {
        plan.push(JsStep::Say(String::from_str("Creating a TSConfig")));
        plan.push(
            JsStep::Write {
                path: String::from_str("./tsconfig.json"),
                content: {
                    let items = vec![
                        "{\n    \"$schema\": \"https://raw.githubusercontent.com/SchemaStore/schemastore/master/src/schemas/json/tsconfig.json\",\n    \"extends\": \"lsctl/tsconfig/",
                        if esm {
                            "esm"
                        } else {
                            "cjs"
                        },
                        "-server.json\"\n}",
                    ];
                    let out = glue(&items);
                    assert(Seq::new(items.len() as nat, |i: int| items[i]@) =~= seq![
                        items[0]@,
                        items[1]@,
                        items[2]@,
                    ]);
                    out
                },
            },
        );
    }
    let ghost p4 = p3 + tsconfig_steps(esm, typescript);
    assert(views(plan@) =~= p4);
    plan.push(JsStep::Say(String::from_str("Creating a ESLint config")));
    plan.push(
        JsStep::Write {
            path: concat("./.eslintrc.", extension),
            content: String::from_str(
                "module.exports = {\n    extends: ['get-off-my-lawn'],\n};\n",
            ),
        },
    );
    plan.push(JsStep::Say(String::from_str("Creating a Prettier config")));
    plan.push(
        JsStep::Write {
            path: concat("./.prettierrc.", extension),
            content: String::from_str(
                "module.exports = {\n    ...require('prettier-config-get-off-my-lawn'),\n    plugins: [require('prettier-plugin-packagejson')],\n};\n",
            ),
        },
    );
    assert(views(plan@) =~= js_plan(
        options.skip_dependencies,
        esm,
        typescript,
        yarn_lock,
        pnpm_lock,
    ));
    plan
}

} // verus!
