//! The pipeline from source texts to the text of the platform
//! configuration: parse, merge, render, decode, check the references,
//! resolve the environment, project, write.
//!
//! Reading the sources, asking the secret services and writing the result
//! are the caller's part. The pipeline stops at the first error; a failed
//! lookup of a secret is no error and only leaves its variable out.

use vstd::prelude::*;
use crate::codec::{
    document_text, json_text, parse_document, parsed_json, table_text, toml_representable,
    toml_text,
};
use crate::decode::{decode, decoded};
use crate::encode::{platform_doc, platform_document};
use crate::environment::{
    answers, failed, missing_reference, resolve_environment, resolved, selected_of,
    selected_variables, validate_references, MissingReference, ResolutionFailure,
    ResolutionFailureView,
};
use crate::json::{item_views, Json, JsonView};
use crate::merge::{merge_documents, merged_all};
use crate::models::{DeployConfig, DeployConfigView};
use crate::project::{project, projected};
use crate::template::{environment_name, malformed, render_environment, rendered, unmatched_at};
use crate::text::{decimal, decimal_text};
use crate::views::views;

verus! {

/// Why the pipeline stopped.
#[derive(Debug, PartialEq, Eq)]
pub enum PipelineError {
    /// A source could not be read.
    ConfigRead { path: String, message: String },
    /// A text is no document, or the document is no deploy configuration.
    ConfigParse { message: String },
    /// The template is malformed: the opening delimiter at `position` is
    /// never closed.
    TemplateRender { position: usize },
    /// A variable needs a reference that the configuration lacks.
    MissingCredentialReference { reference: MissingReference },
    /// The result could not be written.
    Io { path: String, message: String },
    /// The caller gave up.
    Aborted,
}

/// The kind of an error, without what it says.
#[derive(Clone, Copy, Debug, PartialEq, Eq, Structural)]
pub enum Failure {
    ConfigRead,
    ConfigParse,
    TemplateRender,
    MissingCredentialReference(MissingReference),
    Io,
    Aborted,
}

impl PipelineError {
    /// The kind of this error.
    pub open spec fn failure(self) -> Failure {
        match self {
            PipelineError::ConfigRead { .. } => Failure::ConfigRead,
            PipelineError::ConfigParse { .. } => Failure::ConfigParse,
            PipelineError::TemplateRender { .. } => Failure::TemplateRender,
            PipelineError::MissingCredentialReference {
                reference,
            } => Failure::MissingCredentialReference(reference),
            PipelineError::Io { .. } => Failure::Io,
            PipelineError::Aborted => Failure::Aborted,
        }
    }

    /// What this error says.
    pub open spec fn description(self) -> Seq<char> {
        match self {
            PipelineError::ConfigRead { path, message } => "Failed to read file "@ + path@ + ": "@
                + message@,
            PipelineError::ConfigParse { message } => "Failed to parse the deploy config: "@
                + message@,
            PipelineError::TemplateRender {
                position,
            } => "Failed to render the deploy config: no closing delimiter after position "@
                + decimal(position as nat),
            PipelineError::MissingCredentialReference {
                reference: MissingReference::Kms,
            } => "gcp_kms config is not set"@,
            PipelineError::MissingCredentialReference {
                reference: MissingReference::SecretStore,
            } => "gcp_ssm config is not set"@,
            PipelineError::Io { path, message } => "Error creating file "@ + path@ + ": "@
                + message@,
            PipelineError::Aborted => "Aborted"@,
        }
    }

    /// What this error says.
    pub fn describe(&self) -> (r: String)
        ensures
            r@ == self.description(),
    {
        match self {
            PipelineError::ConfigRead { path, message } => {
                let mut out = String::from_str("Failed to read file ");
                out.append(path.as_str());
                out.append(": ");
                out.append(message.as_str());
                out
            },
            PipelineError::ConfigParse { message } => {
                let mut out = String::from_str("Failed to parse the deploy config: ");
                out.append(message.as_str());
                out
            },
            PipelineError::TemplateRender { position } => {
                let mut out = String::from_str(
                    "Failed to render the deploy config: no closing delimiter after position ",
                );
                out.append(decimal_text(*position as u64).as_str());
                out
            },
            PipelineError::MissingCredentialReference { reference: MissingReference::Kms } => {
                String::from_str("gcp_kms config is not set")
            },
            PipelineError::MissingCredentialReference {
                reference: MissingReference::SecretStore,
            } => String::from_str("gcp_ssm config is not set"),
            PipelineError::Io { path, message } => {
                let mut out = String::from_str("Error creating file ");
                out.append(path.as_str());
                out.append(": ");
                out.append(message.as_str());
                out
            },
            PipelineError::Aborted => String::from_str("Aborted"),
        }
    }

    /// The kind of this error.
    pub fn kind(&self) -> (r: Failure)
        ensures
            r == self.failure(),
    {
        match self {
            PipelineError::ConfigRead { .. } => Failure::ConfigRead,
            PipelineError::ConfigParse { .. } => Failure::ConfigParse,
            PipelineError::TemplateRender { .. } => Failure::TemplateRender,
            PipelineError::MissingCredentialReference {
                reference,
            } => Failure::MissingCredentialReference(*reference),
            PipelineError::Io { .. } => Failure::Io,
            PipelineError::Aborted => Failure::Aborted,
        }
    }
}

/// Every text is a document.
pub open spec fn all_parsed(texts: Seq<Seq<char>>) -> bool {
    forall|i: int| 0 <= i < texts.len() ==> (#[trigger] parsed_json(texts[i])) is Some
}

/// The documents of the texts.
pub open spec fn documents(texts: Seq<Seq<char>>) -> Seq<JsonView> {
    Seq::new(texts.len(), |i: int| parsed_json(texts[i])->0)
}

/// The deploy configuration that a merged document stands for in an
/// environment: the document is written as text, the environment is
/// rendered into the text, and the text is read again and decoded.
pub open spec fn rendered_config(merged: JsonView, environment: Seq<char>) -> Result<
    DeployConfigView,
    Failure,
> {
    match json_text(merged) {
        None => Err(Failure::ConfigParse),
        Some(text) => if malformed(text) {
            Err(Failure::TemplateRender)
        } else {
            match parsed_json(rendered(text, environment_name(), environment)) {
                None => Err(Failure::ConfigParse),
                Some(doc) => match decoded(doc) {
                    Err(_) => Err(Failure::ConfigParse),
                    Ok(config) => match missing_reference(config) {
                        Some(reference) => Err(Failure::MissingCredentialReference(reference)),
                        None => Ok(config),
                    },
                },
            }
        },
    }
}

/// The deploy configuration that source texts stand for in an environment,
/// or the kind of the first error on the way to it.
pub open spec fn loaded(texts: Seq<Seq<char>>, environment: Seq<char>) -> Result<
    DeployConfigView,
    Failure,
> {
    if all_parsed(texts) {
        rendered_config(merged_all(documents(texts)), environment)
    } else {
        Err(Failure::ConfigParse)
    }
}

/// The text of the platform configuration of a deploy configuration, in an
/// environment and given the outcomes of the lookups, where it can be
/// written.
pub open spec fn platform_output(
    config: DeployConfigView,
    environment: Seq<char>,
    outcomes: Seq<Result<String, String>>,
) -> Option<Seq<char>> {
    let platform = platform_doc(
        projected(config, resolved(selected_of(config, environment), answers(outcomes))),
    );
    if toml_representable(platform) {
        toml_text(platform)
    } else {
        None
    }
}

/// What the whole pipeline gives for source texts, an environment and the
/// outcomes of the lookups: the text of the platform configuration, or the
/// kind of the first error.
pub open spec fn generated(
    texts: Seq<Seq<char>>,
    environment: Seq<char>,
    outcomes: Seq<Result<String, String>>,
) -> Result<Seq<char>, Failure> {
    match loaded(texts, environment) {
        Err(e) => Err(e),
        Ok(config) => match platform_output(config, environment, outcomes) {
            Some(text) => Ok(text),
            None => Err(Failure::ConfigParse),
        },
    }
}

/// The lookups that fail on the way through the whole pipeline, in the
/// order of the variables: those of the variables that count for the
/// environment in the configuration that the texts stand for.
pub open spec fn generated_failures(
    texts: Seq<Seq<char>>,
    environment: Seq<char>,
    outcomes: Seq<Result<String, String>>,
) -> Seq<ResolutionFailureView> {
    match loaded(texts, environment) {
        Ok(config) => failed(selected_of(config, environment), outcomes),
        Err(_) => Seq::empty(),
    }
}

/// The text of the platform configuration, and the lookups that failed on
/// the way to it.
#[derive(Debug, PartialEq, Eq)]
pub struct Output {
    pub text: String,
    pub failures: Vec<ResolutionFailure>,
}

/// `r` is what `expected` says, seen through the views of the
/// configuration and the kind of the error.
pub open spec fn loads(
    r: Result<DeployConfig, PipelineError>,
    expected: Result<DeployConfigView, Failure>,
) -> bool {
    match r {
        Ok(config) => expected == Ok::<DeployConfigView, Failure>(config@),
        Err(e) => expected == Err::<DeployConfigView, Failure>(e.failure()),
    }
}

/// `r` is what `expected` says, seen through the view of the text and the
/// kind of the error.
pub open spec fn generates(
    r: Result<Output, PipelineError>,
    expected: Result<Seq<char>, Failure>,
) -> bool {
    match r {
        Ok(output) => expected == Ok::<Seq<char>, Failure>(output.text@),
        Err(e) => expected == Err::<Seq<char>, Failure>(e.failure()),
    }
}

/// Reads each text as a document.
fn parse_all(texts: &Vec<String>) -> (r: Result<Vec<Json>, PipelineError>)
    ensures
        r is Ok == all_parsed(views(texts@)),
        r matches Ok(docs) ==> item_views(docs@) == documents(views(texts@)),
        r matches Err(e) ==> e.failure() == Failure::ConfigParse,
{
    let mut docs: Vec<Json> = Vec::new();
    let mut i: usize = 0;
    while i < texts.len()
        invariant
            i <= texts.len(),
            docs.len() == i,
            forall|j: int| 0 <= j < i ==> parsed_json(#[trigger] views(texts@)[j]) == Some(docs[j]@),
        decreases texts.len() - i,
    {
        match parse_document(texts[i].as_str()) {
            Ok(doc) => {
                docs.push(doc);
            },
            Err(message) => {
                assert(parsed_json(views(texts@)[i as int]) is None);
                return Err(PipelineError::ConfigParse { message });
            },
        }
        i += 1;
    }
    assert(item_views(docs@) =~= documents(views(texts@)));
    Ok(docs)
}

/// The member that keeps a merged document from being a deploy
/// configuration in an environment, where it is read as a document and
/// refused as a configuration.
pub open spec fn refused_member(merged: JsonView, environment: Seq<char>) -> Option<Seq<char>> {
    match json_text(merged) {
        Some(text) => if malformed(text) {
            None
        } else {
            match parsed_json(rendered(text, environment_name(), environment)) {
                Some(doc) => match decoded(doc) {
                    Err(key) => Some(key),
                    Ok(_) => None,
                },
                None => None,
            }
        },
        None => None,
    }
}

/// Decodes a merged document in an environment. A template error tells
/// the place of the opening delimiter that is not closed; where the
/// document is refused as a configuration, the message of the error is
/// the key of the member that is missing or has the wrong type.
pub fn render_config(merged: &Json, environment: &str) -> (r: Result<DeployConfig, PipelineError>)
    ensures
        loads(r, rendered_config(merged@, environment@)),
        r matches Err(PipelineError::TemplateRender { position }) ==> json_text(merged@) is Some
            && unmatched_at(json_text(merged@)->0, position as int),
        r matches Err(PipelineError::ConfigParse { message }) ==> (refused_member(
            merged@,
            environment@,
        ) matches Some(key) ==> message@ == key),
{
    let text = match document_text(merged) {
        Some(text) => text,
        None => {
            return Err(
                PipelineError::ConfigParse {
                    message: String::from_str("the merged document cannot be written as text"),
                },
            );
        },
    };
    let rendered_text = match render_environment(text.as_str(), environment) {
        Ok(t) => t,
        Err(e) => {
            return Err(PipelineError::TemplateRender { position: e.position });
        },
    };
    let doc = match parse_document(rendered_text.as_str()) {
        Ok(doc) => doc,
        Err(message) => {
            return Err(PipelineError::ConfigParse { message });
        },
    };
    let config = match decode(&doc) {
        Ok(config) => config,
        Err(key) => {
            return Err(PipelineError::ConfigParse { message: key });
        },
    };
    match validate_references(&config) {
        Ok(()) => Ok(config),
        Err(reference) => Err(PipelineError::MissingCredentialReference { reference }),
    }
}

impl DeployConfig {
    /// The deploy configuration of source texts in an environment: the
    /// texts are read as documents and merged from left to right, the
    /// environment is rendered into the text of the merge, and the result
    /// is decoded and checked for the references that its variables need.
    pub fn new(texts: &Vec<String>, environment: &str) -> (r: Result<DeployConfig, PipelineError>)
        requires
            texts.len() > 0,
        ensures
            loads(r, loaded(views(texts@), environment@)),
            r matches Err(PipelineError::TemplateRender { position }) ==> unmatched_at(
                json_text(merged_all(documents(views(texts@))))->0,
                position as int,
            ),
            r matches Err(PipelineError::ConfigParse { message }) ==> (all_parsed(views(texts@))
                ==> (refused_member(
                merged_all(documents(views(texts@))),
                environment@,
            ) matches Some(key) ==> message@ == key)),
    {
        let docs = match parse_all(texts) {
            Ok(docs) => docs,
            Err(e) => { return Err(e); },
        };
        let merged = merge_documents(&docs);
        render_config(&merged, environment)
    }
}

/// What is said of a platform configuration that cannot be written.
pub open spec fn unwritable() -> Seq<char> {
    "the platform configuration cannot be written as TOML"@
}

/// Writes the platform configuration of a deploy configuration, given the
/// outcomes of the lookups in the order of `secret_requests`.
pub fn platform_text(
    config: DeployConfig,
    environment: &str,
    outcomes: &Vec<Result<String, String>>,
) -> (r: Result<Output, PipelineError>)
    ensures
        r is Ok == platform_output(config@, environment@, outcomes@) is Some,
        r matches Ok(output) ==> platform_output(config@, environment@, outcomes@) == Some(
            output.text@,
        ) && views(output.failures@) == failed(selected_of(config@, environment@), outcomes@),
        r matches Err(e) ==> e matches PipelineError::ConfigParse { message } && message@
            == unwritable(),
{
    let variables = selected_variables(&config, environment);
    let resolution = resolve_environment(&variables, outcomes);
    let platform = project(config, resolution.environment);
    let doc = platform_document(&platform);
    match table_text(&doc) {
        Some(text) => Ok(Output { text, failures: resolution.failures }),
        None => Err(
            PipelineError::ConfigParse {
                message: String::from_str("the platform configuration cannot be written as TOML"),
            },
        ),
    }
}

/// Runs the whole pipeline on source texts, given the outcomes of the
/// lookups in the order of `secret_requests`.
pub fn generate(
    texts: &Vec<String>,
    environment: &str,
    outcomes: &Vec<Result<String, String>>,
) -> (r:
    Result<Output, PipelineError>)
    requires
        texts.len() > 0,
    ensures
        generates(r, generated(views(texts@), environment@, outcomes@)),
        r matches Ok(output) ==> views(output.failures@) == generated_failures(
            views(texts@),
            environment@,
            outcomes@,
        ),
{
    let config = match DeployConfig::new(texts, environment) {
        Ok(config) => config,
        Err(e) => { return Err(e); },
    };
    platform_text(config, environment, outcomes)
}

/// `r` is what a run of the whole pipeline gives: the text or the kind of
/// the error that `generated` says, and with the text the lookups that
/// `generated_failures` says.
pub open spec fn runs(
    r: Result<Output, PipelineError>,
    texts: Seq<Seq<char>>,
    environment: Seq<char>,
    outcomes: Seq<Result<String, String>>,
) -> bool {
    &&& generates(r, generated(texts, environment, outcomes))
    &&& r matches Ok(output) ==> views(output.failures@) == generated_failures(
        texts,
        environment,
        outcomes,
    )
}

/// The pipeline is repeatable: two runs on the same texts, in the same
/// environment and with the same outcomes of the lookups end alike, with
/// the same text and the same failed lookups, or with an error of the same
/// kind.
pub proof fn lemma_generate_repeatable(
    texts: Seq<Seq<char>>,
    environment: Seq<char>,
    outcomes: Seq<Result<String, String>>,
    first: Result<Output, PipelineError>,
    second: Result<Output, PipelineError>,
)
    requires
        runs(first, texts, environment, outcomes),
        runs(second, texts, environment, outcomes),
    ensures
        first is Ok == second is Ok,
        first is Ok ==> first->Ok_0.text@ == second->Ok_0.text@,
        first is Ok ==> views(first->Ok_0.failures@) == views(second->Ok_0.failures@),
        first is Err ==> first->Err_0.failure() == second->Err_0.failure(),
{
}

} // verus!
