use lsctl::js::{has_key, js_config_plan, JsConfigOptions, JsStep, JsSubcommand, PackageJson};
use lsctl::models::StringMap;

fn map(entries: &[(&str, &str)]) -> StringMap {
    StringMap { entries: entries.iter().map(|(k, v)| (k.to_string(), v.to_string())).collect() }
}

#[test]
fn keys_of_an_optional_map() {
    assert!(has_key(&Some(map(&[("a", "1")])), "a"));
    assert!(!has_key(&Some(map(&[("a", "1")])), "b"));
    assert!(!has_key(&None, "a"));
}

#[test]
fn package_description_is_read_from_text() {
    let package = PackageJson::new(
        r#"{"name":"x","type":"module","dependencies":{"chance":"^1"},
            "devDependencies":{"typescript":"^5"}}"#,
    )
    .unwrap();
    assert!(package.is_esm());
    assert!(package.has_dependency("typescript"));
    assert!(package.has_dependency("chance"));
    assert!(!package.has_dependency("jest"));
    assert_eq!(package.dev_dependencies, Some(map(&[("typescript", "^5")])));
    let plain = PackageJson::new("{}").unwrap();
    assert!(!plain.is_esm());
    assert!(!plain.has_dependency("typescript"));
    assert_eq!(PackageJson::new(r#"{"type":5}"#), Err("type".to_string()));
    assert!(PackageJson::new("[").is_err());
    assert_eq!(PackageJson::new("[]"), Err(String::new()));
}

#[test]
fn plan_for_a_common_js_project_with_yarn() {
    let package = PackageJson { the_type: None, dependencies: None, dev_dependencies: None };
    let options = JsConfigOptions { skip_dependencies: false };
    let plan = js_config_plan(&options, &package, true, true);
    let expected_swc = r#"{
    "jsc": {
        "parser": {
            "syntax": "ecmascript"
        },
        "target": "es5"
    },
    "minify": true,
    "module": {
        "strict": true,
        "strictMode": true,
        "type": "commonjs"
    },
    "sourceMaps": "inline"
}"#;
    assert_eq!(
        plan,
        vec![
            JsStep::Say("This repo appears to be using Common JS. If this is incorrect, please set \"type\": \"module\" in package.json.".to_string()),
            JsStep::Say("This repo does not appear to be using TypeScript. If this is incorrect, please add the \"typescript\" dependency in package.json.".to_string()),
            JsStep::Say("Install dependencies using yarn".to_string()),
            JsStep::Run {
                program: "yarn".to_string(),
                arguments: [
                    "install",
                    "-D",
                    "@swc/core@latest",
                    "@swc/jest@latest",
                    "@swc/cli@latest",
                    "prettier@latest",
                    "prettier-config-get-off-my-lawn@latest",
                    "eslint@latest",
                    "eslint-config-get-off-my-lawn@latest",
                    "jest@latest",
                    "chance@latest",
                    "nodemon@latest",
                    "prettier-plugin-packagejson@latest",
                ]
                .iter()
                .map(|s| s.to_string())
                .collect(),
            },
            JsStep::Say("Creating a SWC config".to_string()),
            JsStep::Write { path: "./.swcrc".to_string(), content: expected_swc.to_string() },
            JsStep::Say("Creating a ESLint config".to_string()),
            JsStep::Write {
                path: "./.eslintrc.js".to_string(),
                content: "module.exports = {\n    extends: ['get-off-my-lawn'],\n};\n".to_string(),
            },
            JsStep::Say("Creating a Prettier config".to_string()),
            JsStep::Write {
                path: "./.prettierrc.js".to_string(),
                content: "module.exports = {\n    ...require('prettier-config-get-off-my-lawn'),\n    plugins: [require('prettier-plugin-packagejson')],\n};\n".to_string(),
            },
        ]
    );
}

#[test]
fn plan_for_a_typescript_es_module_project() {
    let package = PackageJson {
        the_type: Some("module".to_string()),
        dependencies: None,
        dev_dependencies: Some(map(&[("typescript", "5")])),
    };
    let JsSubcommand::Config(options) =
        JsSubcommand::Config(JsConfigOptions { skip_dependencies: true });
    let plan = js_config_plan(&options, &package, false, true);
    assert_eq!(plan.len(), 10);
    assert_eq!(
        plan[0],
        JsStep::Say("This repo appears to be using ES Modules. If this is incorrect, please set \"type\": \"commonjs\" in package.json.".to_string())
    );
    assert_eq!(
        plan[1],
        JsStep::Say("This repo appears to be using TypeScript. If this is incorrect, please remove the \"typescript\" dependency in package.json.".to_string())
    );
    assert_eq!(
        plan[5],
        JsStep::Write {
            path: "./tsconfig.json".to_string(),
            content: "{\n    \"$schema\": \"https://raw.githubusercontent.com/SchemaStore/schemastore/master/src/schemas/json/tsconfig.json\",\n    \"extends\": \"lsctl/tsconfig/esm-server.json\"\n}".to_string(),
        }
    );
    match &plan[3] {
        JsStep::Write { path, content } => {
            assert_eq!(path, "./.swcrc");
            assert!(content.contains("\"syntax\": \"typescript\""));
            assert!(content.contains("\"target\": \"es2020\""));
            assert!(content.contains("\"type\": \"es6\""));
        }
        other => panic!("unexpected step {:?}", other),
    }
    match &plan[7] {
        JsStep::Write { path, .. } => assert_eq!(path, "./.eslintrc.cjs"),
        other => panic!("unexpected step {:?}", other),
    }
    match &plan[9] {
        JsStep::Write { path, .. } => assert_eq!(path, "./.prettierrc.cjs"),
        other => panic!("unexpected step {:?}", other),
    }
}

#[test]
fn package_manager_follows_the_lock_files() {
    let package = PackageJson {
        the_type: None,
        dependencies: Some(map(&[("typescript", "5")])),
        dev_dependencies: None,
    };
    let options = JsConfigOptions { skip_dependencies: false };
    let program = |yarn: bool, pnpm: bool| match &js_config_plan(&options, &package, yarn, pnpm)[3] {
        JsStep::Run { program, arguments } => {
            assert_eq!(arguments.len(), 17);
            assert_eq!(arguments[13], "typescript@latest");
            program.clone()
        }
        other => panic!("unexpected step {:?}", other),
    };
    assert_eq!(program(true, false), "yarn");
    assert_eq!(program(false, true), "pnpm");
    assert_eq!(program(false, false), "npm");
}
