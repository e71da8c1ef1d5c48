use lsctl::deploy::{
    deployment_commands, listed, plan_deployment, should_launch, DeployHooks, FlyDeploy,
    PlannedCommand,
};
use lsctl::models::DeployConfig;

fn list(items: &[&str]) -> Vec<String> {
    items.iter().map(|s| s.to_string()).collect()
}

fn config(text: &str) -> DeployConfig {
    DeployConfig::new(&vec![text.to_string()], "prod").unwrap()
}

fn options() -> FlyDeploy {
    FlyDeploy {
        input_files: list(&["fly.json"]),
        image: None,
        local_only: false,
        remote_only: false,
        no_cache: false,
        detach: false,
    }
}

fn no_hooks() -> DeployHooks {
    DeployHooks { pre_deploy: None, post_deploy: None }
}

fn tool(announcement: &str, arguments: &[&str], failure: &str, streamed: bool) -> PlannedCommand {
    PlannedCommand {
        announcement: announcement.to_string(),
        program: "flyctl".to_string(),
        arguments: list(arguments),
        failure_message: failure.to_string(),
        streamed,
    }
}

const PLAIN: &str = r#"{"name":"shop","organization":"acme","default_region":"ord",
    "regions":["lhr","ord","lhr"],"backup_regions":["ams"]}"#;

const LISTING: &str = "NAME          OWNER  STATUS\nshop          acme   running\nshop-postgres acme   running\n";

#[test]
fn an_application_is_found_in_the_listing_by_its_name() {
    assert_eq!(listed("shop", LISTING), Some(true));
    assert_eq!(listed("shop-postgres", LISTING), Some(true));
    assert_eq!(listed("store", LISTING), Some(false));
    assert_eq!(listed("shop", "shop"), Some(false));
    assert_eq!(listed("sh(op", LISTING), None);
    assert_eq!(should_launch(&config(PLAIN), LISTING), Some(false));
    assert_eq!(should_launch(&config(PLAIN), "NAME\nother  x\n"), Some(true));
}

#[test]
fn plan_for_an_application_that_the_platform_has() {
    let plan = deployment_commands(&config(PLAIN), &options(), &no_hooks(), true, true, &vec![]);
    assert_eq!(
        plan,
        vec![
            tool("Deploying the app", &["deploy", "--region", "ord"], "Failed to deploy the app", true),
            tool(
                "Updating app autoscaling to method: balanced, min: 1, max: 1",
                &["autoscale", "balanced", "--app", "shop", "min=1", "max=1"],
                "Failed to set autoscaling on the app",
                true,
            ),
            tool(
                "Updating app memory to 256mb",
                &["scale", "memory", "256", "--app", "shop"],
                "Failed to set memory on the app",
                true,
            ),
            tool(
                "Updating app regions to lhr, ord",
                &["regions", "set", "lhr", "ord", "--app", "shop"],
                "Failed to set regions on the app",
                false,
            ),
            tool(
                "Updating app backup regions ams",
                &["regions", "backup", "ams", "--app", "shop"],
                "Failed to set backup regions on the app",
                true,
            ),
        ]
    );
}

#[test]
fn a_new_application_is_launched_first() {
    let plan = deployment_commands(&config(PLAIN), &options(), &no_hooks(), false, false, &vec![]);
    assert_eq!(plan.len(), 6);
    assert_eq!(
        plan[0],
        tool(
            "Launching new app",
            &[
                "launch",
                "--no-deploy",
                "--copy-config",
                "--name",
                "shop",
                "--org",
                "acme",
                "--region",
                "ord",
            ],
            "Failed to start Fly app",
            true,
        )
    );
}

const WITH_DATABASE: &str = r#"{"name":"shop","organization":"acme","default_region":"ord",
    "database":{"postgres":{"volume_size":10,"vm_size":"dedicated-cpu-1x"}},
    "scaling":{"balance_method":"static","min_count":3,"max_count":9,"memory":1024}}"#;

#[test]
fn a_database_is_created_and_attached() {
    let plan =
        deployment_commands(&config(WITH_DATABASE), &options(), &no_hooks(), true, false, &vec![]);
    assert_eq!(plan.len(), 7);
    assert_eq!(
        plan[0],
        tool(
            "Creating new Postgres database",
            &[
                "postgres",
                "create",
                "--name",
                "shop-postgres",
                "--organization",
                "acme",
                "--region",
                "ord",
                "--volume-size",
                "10",
                "--initial-cluster-size",
                "2",
                "--vm-size",
                "dedicated-cpu-1x",
            ],
            "Failed to create Fly app database",
            true,
        )
    );
    assert_eq!(
        plan[1],
        tool(
            "Attaching the Postgres database",
            &["postgres", "attach", "--postgres-app", "shop-postgres", "--app", "shop"],
            "Failed to attach Fly app database",
            true,
        )
    );
    assert_eq!(
        plan[3],
        tool(
            "Updating app scaling to 3",
            &["scale", "count", "3", "--app", "shop"],
            "Failed to set scaling on the app",
            true,
        )
    );
    assert_eq!(
        plan[4],
        tool(
            "Updating app memory to 1024mb",
            &["scale", "memory", "1024", "--app", "shop"],
            "Failed to set memory on the app",
            true,
        )
    );
    assert_eq!(
        plan[5],
        tool(
            "Updating app regions to ord",
            &["regions", "set", "ord", "--app", "shop"],
            "Failed to set regions on the app",
            false,
        )
    );
    assert_eq!(
        plan[6],
        tool(
            "Updating app backup regions ",
            &["regions", "backup", "--app", "shop"],
            "Failed to set backup regions on the app",
            true,
        )
    );
}

#[test]
fn a_listed_database_is_only_attached_and_an_attached_one_is_left_alone() {
    let listed_only =
        deployment_commands(&config(WITH_DATABASE), &options(), &no_hooks(), true, true, &vec![]);
    assert_eq!(listed_only.len(), 6);
    assert_eq!(listed_only[0].arguments[1], "attach");
    let attached = deployment_commands(
        &config(WITH_DATABASE),
        &options(),
        &no_hooks(),
        true,
        true,
        &list(&["NAME", "DATABASE_URL"]),
    );
    assert_eq!(attached.len(), 5);
    assert_eq!(attached[0].arguments[0], "deploy");
}

#[test]
fn options_and_hooks_shape_the_plan() {
    let options = FlyDeploy {
        input_files: list(&["fly.json"]),
        image: Some("registry/shop:1".to_string()),
        local_only: true,
        remote_only: true,
        no_cache: true,
        detach: true,
    };
    let hooks = DeployHooks {
        pre_deploy: Some("npm run  build".to_string()),
        post_deploy: Some("notify".to_string()),
    };
    let plan = deployment_commands(&config(PLAIN), &options, &hooks, true, true, &vec![]);
    assert_eq!(plan.len(), 7);
    assert_eq!(
        plan[0],
        PlannedCommand {
            announcement: "Running pre-deploy hook".to_string(),
            program: "npm".to_string(),
            arguments: list(&["run", "", "build"]),
            failure_message: "Failed to run post-deploy hook".to_string(),
            streamed: true,
        }
    );
    assert_eq!(
        plan[1].arguments,
        list(&[
            "deploy",
            "--region",
            "ord",
            "--image",
            "registry/shop:1",
            "--local-only",
            "--remote-only",
            "--no-cache",
            "--detach",
        ])
    );
    assert_eq!(
        plan[6],
        PlannedCommand {
            announcement: "Running post-deploy hook".to_string(),
            program: "notify".to_string(),
            arguments: vec![],
            failure_message: "Failed to run post-deploy hook".to_string(),
            streamed: true,
        }
    );
}

#[test]
fn the_plan_follows_the_listings() {
    let secrets = "NAME          DIGEST\nDATABASE_URL  abc\n";
    let plan =
        plan_deployment(&config(WITH_DATABASE), &options(), &no_hooks(), LISTING, secrets).unwrap();
    assert_eq!(plan.len(), 5);
    let plan = plan_deployment(&config(WITH_DATABASE), &options(), &no_hooks(), LISTING, "NAME\n")
        .unwrap();
    assert_eq!(plan.len(), 6);
    assert_eq!(plan[0].arguments[1], "attach");
    let plan = plan_deployment(&config(WITH_DATABASE), &options(), &no_hooks(), "NAME\n", secrets)
        .unwrap();
    assert_eq!(plan.len(), 8);
    assert_eq!(plan[0].arguments[0], "launch");
    assert_eq!(plan[1].arguments[1], "create");
    assert_eq!(plan[2].arguments[1], "attach");
    let odd = config(r#"{"name":"a(b","organization":"acme","default_region":"ord"}"#);
    assert_eq!(plan_deployment(&odd, &options(), &no_hooks(), LISTING, secrets), None);
}
