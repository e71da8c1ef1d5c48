//! Planning a deployment: which commands of the platform's tool are run,
//! with which arguments and in which order.
//!
//! The plan depends on the configuration, on the options of the
//! deployment, and on what the platform already has: whether it lists the
//! application and its database, and which secrets the application has.
//! Running the commands is the caller's part.

use vstd::prelude::*;
use crate::models::{
    DeployConfig, DeployConfigView, FlyAutoscalingBalanceMethod, FlyDatabasePostgres,
};
use crate::text::{decimal, decimal_text, strings};
use crate::views::{opt_view, views};
use crate::words::{
    contains_text, distinct, distinct_texts, first_words, first_words_of, join, joined,
    lemma_split_len, split, split_text,
};

verus! {

#[verifier::external_type_specification]
#[verifier::external_body]
pub struct ExRegex(regex::Regex);

/// Whether `regex::Regex::new` makes a regular expression of a pattern.
pub uninterp spec fn compiles(pattern: Seq<char>) -> bool;

/// The pattern that a `regex::Regex` was made of.
pub uninterp spec fn expression_pattern(expression: regex::Regex) -> Seq<char>;

/// Whether a text has a match of the regular expression of a pattern, as
/// `regex::Regex::is_match` tells.
pub uninterp spec fn matched(pattern: Seq<char>, text: Seq<char>) -> bool;

/// Whether a text has a match of a pattern; nothing where the pattern is
/// no regular expression.
pub open spec fn pattern_match(pattern: Seq<char>, text: Seq<char>) -> Option<bool> {
    if compiles(pattern) {
        Some(matched(pattern, text))
    } else {
        None
    }
}

/// `regex::Regex::new`: the regular expression of the pattern, where the
/// pattern makes one.
#[verifier::external_body]
fn compile(pattern: &str) -> (r: Option<regex::Regex>)
    ensures
        r is Some == compiles(pattern@),
        r matches Some(expression) ==> expression_pattern(expression) == pattern@,
{
    regex::Regex::new(pattern).ok()
}

/// `regex::Regex::is_match`: whether the text has a match of the
/// expression.
#[verifier::external_body]
fn is_match(expression: &regex::Regex, text: &str) -> (r: bool)
    ensures
        r == matched(expression_pattern(*expression), text@),
{
    expression.is_match(text)
}

/// Whether a text has a match of a pattern.
fn has_match(pattern: &str, text: &str) -> (r: Option<bool>)
    ensures
        r == pattern_match(pattern@, text@),
{
    match compile(pattern) {
        Some(expression) => Some(is_match(&expression, text)),
        None => None,
    }
}

/// The options of a deployment.
#[derive(Debug, PartialEq, Eq)]
pub struct FlyDeploy {
    /// The sources of the deploy configuration.
    pub input_files: Vec<String>,
    /// The image to deploy.
    pub image: Option<String>,
    /// Build with the local docker daemon only.
    pub local_only: bool,
    /// Build on a remote builder only.
    pub remote_only: bool,
    /// Build without the cache.
    pub no_cache: bool,
    /// Do not wait for the deployment to finish.
    pub detach: bool,
}

/// What a `FlyDeploy` holds, its strings seen as character sequences.
pub struct FlyDeployView {
    pub input_files: Seq<Seq<char>>,
    pub image: Option<Seq<char>>,
    pub local_only: bool,
    pub remote_only: bool,
    pub no_cache: bool,
    pub detach: bool,
}

impl View for FlyDeploy {
    type V = FlyDeployView;

    open spec fn view(&self) -> FlyDeployView {
        FlyDeployView {
            input_files: views(self.input_files@),
            image: opt_view(self.image),
            local_only: self.local_only,
            remote_only: self.remote_only,
            no_cache: self.no_cache,
            detach: self.detach,
        }
    }
}

/// Commands of the author that are run before and after the deployment.
#[derive(Debug, PartialEq, Eq)]
pub struct DeployHooks {
    pub pre_deploy: Option<String>,
    pub post_deploy: Option<String>,
}

/// What a `DeployHooks` holds, its strings seen as character sequences.
pub struct DeployHooksView {
    pub pre_deploy: Option<Seq<char>>,
    pub post_deploy: Option<Seq<char>>,
}

impl View for DeployHooks {
    type V = DeployHooksView;

    open spec fn view(&self) -> DeployHooksView {
        DeployHooksView {
            pre_deploy: opt_view(self.pre_deploy),
            post_deploy: opt_view(self.post_deploy),
        }
    }
}

/// A command of the plan: what is announced before it runs, the program
/// and its arguments, what its failure is reported with, and whether its
/// output is shown while it runs.
#[derive(Debug, PartialEq, Eq)]
pub struct PlannedCommand {
    pub announcement: String,
    pub program: String,
    pub arguments: Vec<String>,
    pub failure_message: String,
    pub streamed: bool,
}

/// What a `PlannedCommand` holds, its strings seen as character sequences.
pub struct PlannedCommandView {
    pub announcement: Seq<char>,
    pub program: Seq<char>,
    pub arguments: Seq<Seq<char>>,
    pub failure_message: Seq<char>,
    pub streamed: bool,
}

impl View for PlannedCommand {
    type V = PlannedCommandView;

    open spec fn view(&self) -> PlannedCommandView {
        PlannedCommandView {
            announcement: self.announcement@,
            program: self.program@,
            arguments: views(self.arguments@),
            failure_message: self.failure_message@,
            streamed: self.streamed,
        }
    }
}

/// The name of the platform's tool.
pub open spec fn flyctl() -> Seq<char> {
    "flyctl"@
}

/// The pattern that finds an application in a listing: its name, then
/// white space.
pub open spec fn listing_pattern(name: Seq<char>) -> Seq<char> {
    name + "\\s+"@
}

/// The name of the database of an application.
pub open spec fn postgres_name(name: Seq<char>) -> Seq<char> {
    name + "-postgres"@
}

/// The command that launches the application.
pub open spec fn launch_command(c: DeployConfigView) -> PlannedCommandView {
    PlannedCommandView {
        announcement: "Launching new app"@,
        program: flyctl(),
        arguments: seq![
            "launch"@,
            "--no-deploy"@,
            "--copy-config"@,
            "--name"@,
            c.name,
            "--org"@,
            c.organization,
            "--region"@,
            c.default_region,
        ],
        failure_message: "Failed to start Fly app"@,
        streamed: true,
    }
}

/// The command that creates the database of the application. The cluster
/// starts with two nodes, whatever size the configuration names; volume
/// and machine are those of the configuration.
pub open spec fn create_postgres_command(
    c: DeployConfigView,
    postgres: FlyDatabasePostgres,
) -> PlannedCommandView {
    PlannedCommandView {
        announcement: "Creating new Postgres database"@,
        program: flyctl(),
        arguments: seq![
            "postgres"@,
            "create"@,
            "--name"@,
            postgres_name(c.name),
            "--organization"@,
            c.organization,
            "--region"@,
            c.default_region,
            "--volume-size"@,
            decimal(postgres.volume_size as nat),
            "--initial-cluster-size"@,
            "2"@,
            "--vm-size"@,
            postgres.vm_size.name(),
        ],
        failure_message: "Failed to create Fly app database"@,
        streamed: true,
    }
}

/// The command that attaches the database to the application.
pub open spec fn attach_postgres_command(c: DeployConfigView) -> PlannedCommandView {
    PlannedCommandView {
        announcement: "Attaching the Postgres database"@,
        program: flyctl(),
        arguments: seq![
            "postgres"@,
            "attach"@,
            "--postgres-app"@,
            postgres_name(c.name),
            "--app"@,
            c.name,
        ],
        failure_message: "Failed to attach Fly app database"@,
        streamed: true,
    }
}

/// The command of a hook: its first word is the program, the others are
/// the arguments. The hooks are told apart by what is announced; the
/// failure of either is reported with the same message.
pub open spec fn hook_command(hook: Seq<char>, announcement: Seq<char>) -> PlannedCommandView {
    PlannedCommandView {
        announcement,
        program: split(hook, ' ')[0],
        arguments: split(hook, ' ').skip(1),
        failure_message: "Failed to run post-deploy hook"@,
        streamed: true,
    }
}

/// The arguments that the options of a deployment add.
pub open spec fn option_arguments(o: FlyDeployView) -> Seq<Seq<char>> {
    (match o.image {
        Some(image) => seq!["--image"@, image],
        None => Seq::empty(),
    }) + (if o.local_only {
        seq!["--local-only"@]
    } else {
        Seq::empty()
    }) + (if o.remote_only {
        seq!["--remote-only"@]
    } else {
        Seq::empty()
    }) + (if o.no_cache {
        seq!["--no-cache"@]
    } else {
        Seq::empty()
    }) + (if o.detach {
        seq!["--detach"@]
    } else {
        Seq::empty()
    })
}

/// The command that deploys the application.
pub open spec fn deploy_command(c: DeployConfigView, o: FlyDeployView) -> PlannedCommandView {
    PlannedCommandView {
        announcement: "Deploying the app"@,
        program: flyctl(),
        arguments: seq!["deploy"@, "--region"@, c.default_region] + option_arguments(o),
        failure_message: "Failed to deploy the app"@,
        streamed: true,
    }
}

/// The command that sets how the application scales: with the static
/// method the number of instances, with the others the bounds of
/// autoscaling.
pub open spec fn scaling_command(c: DeployConfigView) -> PlannedCommandView {
    let min = decimal(c.scaling.min_count as nat);
    let max = decimal(c.scaling.max_count as nat);
    if c.scaling.balance_method == FlyAutoscalingBalanceMethod::Static {
        PlannedCommandView {
            announcement: "Updating app scaling to "@ + min,
            program: flyctl(),
            arguments: seq!["scale"@, "count"@, min, "--app"@, c.name],
            failure_message: "Failed to set scaling on the app"@,
            streamed: true,
        }
    } else {
        PlannedCommandView {
            announcement: "Updating app autoscaling to method: "@ + c.scaling.balance_method.name()
                + ", min: "@ + min + ", max: "@ + max,
            program: flyctl(),
            arguments: seq![
                "autoscale"@,
                c.scaling.balance_method.name(),
                "--app"@,
                c.name,
                "min="@ + min,
                "max="@ + max,
            ],
            failure_message: "Failed to set autoscaling on the app"@,
            streamed: true,
        }
    }
}

/// The command that sets the memory of the instances.
pub open spec fn memory_command(c: DeployConfigView) -> PlannedCommandView {
    let memory = decimal(c.scaling.memory as nat);
    PlannedCommandView {
        announcement: "Updating app memory to "@ + memory + "mb"@,
        program: flyctl(),
        arguments: seq!["scale"@, "memory"@, memory, "--app"@, c.name],
        failure_message: "Failed to set memory on the app"@,
        streamed: true,
    }
}

/// The regions of the application: those that it names and its default
/// region, each once.
pub open spec fn all_regions(c: DeployConfigView) -> Seq<Seq<char>> {
    distinct(c.regions.push(c.default_region))
}

/// The command that sets the regions of the application.
pub open spec fn regions_command(c: DeployConfigView) -> PlannedCommandView {
    PlannedCommandView {
        announcement: "Updating app regions to "@ + joined(all_regions(c), ", "@),
        program: flyctl(),
        arguments: seq!["regions"@, "set"@] + all_regions(c) + seq!["--app"@, c.name],
        failure_message: "Failed to set regions on the app"@,
        streamed: false,
    }
}

/// The command that sets the backup regions of the application.
pub open spec fn backup_regions_command(c: DeployConfigView) -> PlannedCommandView {
    PlannedCommandView {
        announcement: "Updating app backup regions "@ + joined(distinct(c.backup_regions), ", "@),
        program: flyctl(),
        arguments: seq!["regions"@, "backup"@] + distinct(c.backup_regions) + seq![
            "--app"@,
            c.name,
        ],
        failure_message: "Failed to set backup regions on the app"@,
        streamed: true,
    }
}

/// The name of the secret that an attached database gives an application.
pub open spec fn database_secret() -> Seq<char> {
    "DATABASE_URL"@
}

/// The commands for the database: where the configuration has a Postgres
/// part and the application lacks the secret of an attached database, the
/// database is attached, after it is created where the platform does not
/// list it.
pub open spec fn database_steps(
    c: DeployConfigView,
    postgres_listed: bool,
    secrets: Seq<Seq<char>>,
) -> Seq<PlannedCommandView> {
    match c.database {
        Some(database) => match database.postgres {
            Some(postgres) => if secrets.contains(database_secret()) {
                Seq::empty()
            } else if postgres_listed {
                seq![attach_postgres_command(c)]
            } else {
                seq![create_postgres_command(c, postgres), attach_postgres_command(c)]
            },
            None => Seq::empty(),
        },
        None => Seq::empty(),
    }
}

/// The command of a hook, where there is one.
pub open spec fn hook_steps(hook: Option<Seq<char>>, announcement: Seq<char>) -> Seq<
    PlannedCommandView,
> {
    match hook {
        Some(h) => seq![hook_command(h, announcement)],
        None => Seq::empty(),
    }
}

/// The plan of a deployment: launch the application where the platform
/// does not list it, see to the database, run the hook before, deploy, set
/// scaling, memory, regions and backup regions, run the hook after.
pub open spec fn deployment(
    c: DeployConfigView,
    o: FlyDeployView,
    hooks: DeployHooksView,
    app_listed: bool,
    postgres_listed: bool,
    secrets: Seq<Seq<char>>,
) -> Seq<PlannedCommandView> {
    (if app_listed {
        Seq::empty()
    } else {
        seq![launch_command(c)]
    }) + database_steps(c, postgres_listed, secrets) + hook_steps(
        hooks.pre_deploy,
        "Running pre-deploy hook"@,
    ) + seq![
        deploy_command(c, o),
        scaling_command(c),
        memory_command(c),
        regions_command(c),
        backup_regions_command(c),
    ] + hook_steps(hooks.post_deploy, "Running post-deploy hook"@)
}

/// A command of the platform's tool.
fn tool_command(
    announcement: String,
    arguments: Vec<String>,
    failure_message: &str,
    streamed: bool,
) -> (r:
    PlannedCommand)
    ensures
        r@ == (PlannedCommandView {
            announcement: announcement@,
            program: flyctl(),
            arguments: views(arguments@),
            failure_message: failure_message@,
            streamed,
        }),
{
    PlannedCommand {
        announcement,
        program: String::from_str("flyctl"),
        arguments,
        failure_message: String::from_str(failure_message),
        streamed,
    }
}

/// `a` followed by `b`.
fn concat(a: &str, b: &str) -> (r: String)
    ensures
        r@ == a@ + b@,
{
    let mut out = String::from_str(a);
    out.append(b);
    out
}

fn plan_launch(config: &DeployConfig) -> (r: PlannedCommand)
    ensures
        r@ == launch_command(config@),
{
    let items = vec![
        "launch",
        "--no-deploy",
        "--copy-config",
        "--name",
        config.name.as_str(),
        "--org",
        config.organization.as_str(),
        "--region",
        config.default_region.as_str(),
    ];
    let arguments = strings(&items);
    assert(views(arguments@) =~= launch_command(config@).arguments);
    tool_command(String::from_str("Launching new app"), arguments, "Failed to start Fly app", true)
}

fn plan_create_postgres(
    config: &DeployConfig,
    postgres: &FlyDatabasePostgres,
) -> (r: PlannedCommand)
    ensures
        r@ == create_postgres_command(config@, *postgres),
{
    let name = concat(config.name.as_str(), "-postgres");
    let volume = decimal_text(postgres.volume_size);
    let size = postgres.vm_size.to_string();
    let items = vec![
        "postgres",
        "create",
        "--name",
        name.as_str(),
        "--organization",
        config.organization.as_str(),
        "--region",
        config.default_region.as_str(),
        "--volume-size",
        volume.as_str(),
        "--initial-cluster-size",
        "2",
        "--vm-size",
        size.as_str(),
    ];
    let arguments = strings(&items);
    assert(views(arguments@) =~= create_postgres_command(config@, *postgres).arguments);
    tool_command(
        String::from_str("Creating new Postgres database"),
        arguments,
        "Failed to create Fly app database",
        true,
    )
}

fn plan_attach_postgres(config: &DeployConfig) -> (r: PlannedCommand)
    ensures
        r@ == attach_postgres_command(config@),
{
    let name = concat(config.name.as_str(), "-postgres");
    let items = vec![
        "postgres",
        "attach",
        "--postgres-app",
        name.as_str(),
        "--app",
        config.name.as_str(),
    ];
    let arguments = strings(&items);
    assert(views(arguments@) =~= attach_postgres_command(config@).arguments);
    tool_command(
        String::from_str("Attaching the Postgres database"),
        arguments,
        "Failed to attach Fly app database",
        true,
    )
}

fn plan_hook(hook: &str, announcement: &str) -> (r: PlannedCommand)
    ensures
        r@ == hook_command(hook@, announcement@),
{
    let mut words = split_text(hook, ' ');
    proof {
        lemma_split_len(hook@, ' ');
    }
    let ghost all = views(words@);
    let program = words.remove(0);
    assert(views(words@) =~= all.skip(1));
    PlannedCommand {
        announcement: String::from_str(announcement),
        program,
        arguments: words,
        failure_message: String::from_str("Failed to run post-deploy hook"),
        streamed: true,
    }
}

fn plan_deploy(config: &DeployConfig, options: &FlyDeploy) -> (r: PlannedCommand)
    ensures
        r@ == deploy_command(config@, options@),
{
    let mut arguments: Vec<String> = Vec::new();
    arguments.push(String::from_str("deploy"));
    arguments.push(String::from_str("--region"));
    arguments.push(config.default_region.clone());
    let ghost head = seq!["deploy"@, "--region"@, config@.default_region];
    assert(views(arguments@) =~= head);
    match &options.image {
        Some(image) => {
            arguments.push(String::from_str("--image"));
            arguments.push(image.clone());
        },
        None => {},
    }
    let ghost a1 = head + (match options@.image {
        Some(image) => seq!["--image"@, image],
        None => Seq::empty(),
    });
    assert(views(arguments@) =~= a1);
    if options.local_only {
        arguments.push(String::from_str("--local-only"));
    }
    let ghost a2 = a1 + (if options.local_only {
        seq!["--local-only"@]
    } else {
        Seq::empty()
    });
    assert(views(arguments@) =~= a2);
    if options.remote_only {
        arguments.push(String::from_str("--remote-only"));
    }
    let ghost a3 = a2 + (if options.remote_only {
        seq!["--remote-only"@]
    } else {
        Seq::empty()
    });
    assert(views(arguments@) =~= a3);
    if options.no_cache {
        arguments.push(String::from_str("--no-cache"));
    }
    let ghost a4 = a3 + (if options.no_cache {
        seq!["--no-cache"@]
    } else {
        Seq::empty()
    });
    assert(views(arguments@) =~= a4);
    if options.detach {
        arguments.push(String::from_str("--detach"));
    }
    let ghost a5 = a4 + (if options.detach {
        seq!["--detach"@]
    } else {
        Seq::empty()
    });
    assert(views(arguments@) =~= a5);
    assert(a5 =~= head + option_arguments(options@));
    tool_command(String::from_str("Deploying the app"), arguments, "Failed to deploy the app", true)
}

fn plan_scaling(config: &DeployConfig) -> (r: PlannedCommand)
    ensures
        r@ == scaling_command(config@),
{
    let min = decimal_text(config.scaling.min_count);
    let max = decimal_text(config.scaling.max_count);
    if config.scaling.balance_method.is_static() {
        let announcement = concat("Updating app scaling to ", min.as_str());
        let items = vec!["scale", "count", min.as_str(), "--app", config.name.as_str()];
        let arguments = strings(&items);
        assert(views(arguments@) =~= scaling_command(config@).arguments);
        tool_command(announcement, arguments, "Failed to set scaling on the app", true)
    } else {
        let method = config.scaling.balance_method.to_string();
        let mut announcement = concat("Updating app autoscaling to method: ", method.as_str());
        announcement.append(", min: ");
        announcement.append(min.as_str());
        announcement.append(", max: ");
        announcement.append(max.as_str());
        let least = concat("min=", min.as_str());
        let most = concat("max=", max.as_str());
        let items = vec![
            "autoscale",
            method.as_str(),
            "--app",
            config.name.as_str(),
            least.as_str(),
            most.as_str(),
        ];
        let arguments = strings(&items);
        assert(views(arguments@) =~= scaling_command(config@).arguments);
        tool_command(announcement, arguments, "Failed to set autoscaling on the app", true)
    }
}

fn plan_memory(config: &DeployConfig) -> (r: PlannedCommand)
    ensures
        r@ == memory_command(config@),
{
    let memory = decimal_text(config.scaling.memory);
    let mut announcement = concat("Updating app memory to ", memory.as_str());
    announcement.append("mb");
    let items = vec!["scale", "memory", memory.as_str(), "--app", config.name.as_str()];
    let arguments = strings(&items);
    assert(views(arguments@) =~= memory_command(config@).arguments);
    tool_command(announcement, arguments, "Failed to set memory on the app", true)
}

/// Copies of the strings of `from` at the end of `out`.
fn append_strings(out: &mut Vec<String>, from: &Vec<String>)
    ensures
        views(final(out)@) == views(old(out)@) + views(from@),
{
    let ghost before = views(out@);
    let mut i: usize = 0;
    assert(views(out@) =~= before + views(from@).take(0));
    while i < from.len()
        invariant
            i <= from.len(),
            views(out@) == before + views(from@).take(i as int),
        decreases from.len() - i,
    {
        let ghost prev = views(out@);
        out.push(from[i].clone());
        i += 1;
        assert(views(out@) =~= prev.push(from[i - 1]@));
        assert(views(out@) =~= before + views(from@).take(i as int));
    }
    assert(views(from@).take(from.len() as int) =~= views(from@));
}

/// The arguments of a command on regions.
fn region_arguments(action: &str, regions: &Vec<String>, name: &str) -> (r: Vec<String>)
    ensures
        views(r@) == seq!["regions"@, action@] + views(regions@) + seq!["--app"@, name@],
{
    let mut arguments: Vec<String> = Vec::new();
    arguments.push(String::from_str("regions"));
    arguments.push(String::from_str(action));
    assert(views(arguments@) =~= seq!["regions"@, action@]);
    append_strings(&mut arguments, regions);
    let ghost middle = views(arguments@);
    arguments.push(String::from_str("--app"));
    arguments.push(String::from_str(name));
    assert(views(arguments@) =~= middle + seq!["--app"@, name@]);
    arguments
}

fn plan_regions(config: &DeployConfig) -> (r: PlannedCommand)
    ensures
        r@ == regions_command(config@),
{
    let mut named: Vec<String> = Vec::new();
    assert(views(named@) =~= Seq::empty());
    append_strings(&mut named, &config.regions);
    let ghost before = views(named@);
    named.push(config.default_region.clone());
    assert(views(named@) =~= before.push(config.default_region@));
    assert(before =~= config@.regions);
    let regions = distinct_texts(&named);
    let announcement = concat("Updating app regions to ", join(&regions, ", ").as_str());
    let arguments = region_arguments("set", &regions, config.name.as_str());
    tool_command(announcement, arguments, "Failed to set regions on the app", false)
}

fn plan_backup_regions(config: &DeployConfig) -> (r: PlannedCommand)
    ensures
        r@ == backup_regions_command(config@),
{
    assert(views(config.backup_regions@) =~= config@.backup_regions);
    let regions = distinct_texts(&config.backup_regions);
    let announcement = concat("Updating app backup regions ", join(&regions, ", ").as_str());
    let arguments = region_arguments("backup", &regions, config.name.as_str());
    tool_command(announcement, arguments, "Failed to set backup regions on the app", true)
}

/// The plan of a deployment, given what the platform already has: whether
/// it lists the application and its database, and the names of the
/// secrets of the application.
pub fn deployment_commands(
    config: &DeployConfig,
    options: &FlyDeploy,
    hooks: &DeployHooks,
    app_listed: bool,
    postgres_listed: bool,
    secrets: &Vec<String>,
) -> (r: Vec<PlannedCommand>)
    ensures
        views(r@) == deployment(
            config@,
            options@,
            hooks@,
            app_listed,
            postgres_listed,
            views(secrets@),
        ),
{
    let mut plan: Vec<PlannedCommand> = Vec::new();
    assert(views(plan@) =~= Seq::empty());
    if !app_listed {
        plan.push(plan_launch(config));
    }
    let ghost p1: Seq<PlannedCommandView> = if app_listed {
        Seq::empty()
    } else {
        seq![launch_command(config@)]
    };
    assert(views(plan@) =~= p1);
    match &config.database {
        Some(database) => match &database.postgres {
            Some(postgres) => {
                if !contains_text(secrets, "DATABASE_URL") {
                    if !postgres_listed {
                        plan.push(plan_create_postgres(config, postgres));
                    }
                    plan.push(plan_attach_postgres(config));
                }
            },
            None => {},
        },
        None => {},
    }
    let ghost p2 = p1 + database_steps(config@, postgres_listed, views(secrets@));
    assert(views(plan@) =~= p2);
    match &hooks.pre_deploy {
        Some(hook) => {
            plan.push(plan_hook(hook.as_str(), "Running pre-deploy hook"));
        },
        None => {},
    }
    let ghost p3 = p2 + hook_steps(hooks@.pre_deploy, "Running pre-deploy hook"@);
    assert(views(plan@) =~= p3);
    plan.push(plan_deploy(config, options));
    plan.push(plan_scaling(config));
    plan.push(plan_memory(config));
    plan.push(plan_regions(config));
    plan.push(plan_backup_regions(config));
    let ghost p4 = p3 + seq![
        deploy_command(config@, options@),
        scaling_command(config@),
        memory_command(config@),
        regions_command(config@),
        backup_regions_command(config@),
    ];
    assert(views(plan@) =~= p4);
    match &hooks.post_deploy {
        Some(hook) => {
            plan.push(plan_hook(hook.as_str(), "Running post-deploy hook"));
        },
        None => {},
    }
    assert(views(plan@) =~= p4 + hook_steps(hooks@.post_deploy, "Running post-deploy hook"@));
    plan
}

/// Whether the listing of the platform's applications names an
/// application; nothing where the name makes no regular expression.
pub fn listed(name: &str, listing: &str) -> (r: Option<bool>)
    ensures
        r == pattern_match(listing_pattern(name@), listing@),
{
    let pattern = concat(name, "\\s+");
    has_match(pattern.as_str(), listing)
}

/// Whether the application has to be launched: the listing of the
/// platform's applications does not name it.
pub fn should_launch(config: &DeployConfig, listing: &str) -> (r: Option<bool>)
    ensures
        r == (match pattern_match(listing_pattern(config@.name), listing@) {
            Some(found) => Some(!found),
            None => None,
        }),
{
    match listed(config.name.as_str(), listing) {
        Some(found) => Some(!found),
        None => None,
    }
}

/// The plan of a deployment, given the listing of the platform's
/// applications and the listing of the secrets of the application. The
/// secrets are the first words of the lines of their listing; an
/// application that has to be launched has none yet. There is no plan
/// where the name of the application or of its database makes no regular
/// expression.
pub fn plan_deployment(
    config: &DeployConfig,
    options: &FlyDeploy,
    hooks: &DeployHooks,
    apps_listing: &str,
    secrets_listing: &str,
) -> (r: Option<Vec<PlannedCommand>>)
    ensures
        r is Some == (pattern_match(listing_pattern(config@.name), apps_listing@) is Some
            && pattern_match(listing_pattern(postgres_name(config@.name)), apps_listing@) is Some),
        r matches Some(plan) ==> views(plan@) == deployment(
            config@,
            options@,
            hooks@,
            pattern_match(listing_pattern(config@.name), apps_listing@)->0,
            pattern_match(listing_pattern(postgres_name(config@.name)), apps_listing@)->0,
            if pattern_match(listing_pattern(config@.name), apps_listing@)->0 {
                first_words(secrets_listing@)
            } else {
                Seq::empty()
            },
        ),
{
    let app_listed = listed(config.name.as_str(), apps_listing)?;
    let database = concat(config.name.as_str(), "-postgres");
    let postgres_listed = listed(database.as_str(), apps_listing)?;
    let secrets = if app_listed {
        first_words_of(secrets_listing)
    } else {
        let none: Vec<String> = Vec::new();
        assert(views(none@) =~= Seq::empty());
        none
    };
    Some(deployment_commands(config, options, hooks, app_listed, postgres_listed, &secrets))
}

} // verus!
