//! Resolving the environment variables of a deploy configuration.
//!
//! The variables of scope `all` count for every environment, those of the
//! scope named after the active environment for that one; the first come
//! first. A variable whose value is looked up and not found leaves the map
//! as it was; otherwise the last variable of a key decides its value.

use vstd::prelude::*;
use crate::assoc::{
    is_last_entry, keys_of, lemma_to_map_absent, lemma_to_map_found, no_entry, position,
};
use crate::models::{
    scope_views, DeployConfig, DeployConfigView, EnvironmentTable, EnvironmentVariable,
    EnvironmentVariableValue, EnvironmentVariableValueView, EnvironmentVariableView, FlyGcpKmsView,
    FlyGcpSsmView, StringMap,
};
use crate::text::str_eq;
use crate::views::views;

verus! {

/// The variables of the environment table.
pub type Scopes = Map<Seq<char>, Seq<EnvironmentVariableView>>;

impl EnvironmentVariableValue {
    /// A copy of this value.
    pub fn duplicate(&self) -> (r: EnvironmentVariableValue)
        ensures
            r@ == self@,
    {
        match self {
            EnvironmentVariableValue::Value(v) => EnvironmentVariableValue::Value(v.clone()),
            EnvironmentVariableValue::FromGcpKms { value } => EnvironmentVariableValue::FromGcpKms {
                value: value.clone(),
            },
            EnvironmentVariableValue::FromGcpSsm {
                name,
                version,
            } => EnvironmentVariableValue::FromGcpSsm { name: name.clone(), version: *version },
        }
    }
}

impl EnvironmentVariable {
    /// A copy of this variable.
    pub fn duplicate(&self) -> (r: EnvironmentVariable)
        ensures
            r@ == self@,
    {
        EnvironmentVariable { key: self.key.clone(), value: self.value.duplicate() }
    }
}

impl EnvironmentTable {
    /// The variables of a scope, if the table has it.
    pub fn get(&self, scope: &str) -> (r: Option<&Vec<EnvironmentVariable>>)
        ensures
            r is Some == self@.contains_key(scope@),
            r matches Some(v) ==> views(v@) == self@[scope@],
    {
        let found = position(&self.scopes, scope);
        proof {
            let sv = scope_views(self.scopes@);
            assert(keys_of(self.scopes@) =~= Seq::new(sv.len(), |i: int| sv[i].0));
            match found {
                Some(i) => {
                    assert(is_last_entry(keys_of(self.scopes@), scope@, i as int));
                    assert forall|j: int| i < j < sv.len() implies sv[j].0 != scope@ by {
                        assert(keys_of(self.scopes@)[j] != scope@);
                    }
                    assert(keys_of(self.scopes@)[i as int] == scope@);
                    lemma_to_map_found(sv, scope@, i as int);
                },
                None => {
                    assert(no_entry(keys_of(self.scopes@), scope@));
                    assert forall|j: int| 0 <= j < sv.len() implies sv[j].0 != scope@ by {
                        assert(keys_of(self.scopes@)[j] != scope@);
                    }
                    lemma_to_map_absent(sv, scope@);
                },
            }
        }
        match found {
            Some(i) => Some(&self.scopes[i].1),
            None => None,
        }
    }
}

/// The name of the scope that counts for every environment.
pub open spec fn all_scope() -> Seq<char> {
    "all"@
}

/// The variables of a scope; none where the table has no such scope.
pub open spec fn scope_or_none(table: Scopes, scope: Seq<char>) -> Seq<EnvironmentVariableView> {
    if table.contains_key(scope) {
        table[scope]
    } else {
        Seq::empty()
    }
}

/// The variables that count for an environment, in the order in which they
/// are applied: those of scope `all`, then those of the environment's own
/// scope. Every other scope is left out.
pub open spec fn selected(table: Scopes, environment: Seq<char>) -> Seq<EnvironmentVariableView> {
    scope_or_none(table, all_scope()) + (if environment == all_scope() {
        Seq::empty()
    } else {
        scope_or_none(table, environment)
    })
}

/// The variables that count for a configuration and an environment.
pub open spec fn selected_of(config: DeployConfigView, environment: Seq<char>) -> Seq<
    EnvironmentVariableView,
> {
    match config.environment {
        Some(table) => selected(table, environment),
        None => Seq::empty(),
    }
}

/// Appends copies of `from` to `out`.
fn append_variables(out: &mut Vec<EnvironmentVariable>, from: &Vec<EnvironmentVariable>)
    ensures
        views(final(out)@) == views(old(out)@) + views(from@),
{
    let ghost before = views(out@);
    let mut i: usize = 0;
    assert(views(out@) =~= before + views(from@).take(0));
    while i < from.len()
        invariant
            i <= from.len(),
            views(out@) == before + views(from@).take(i as int),
        decreases from.len() - i,
    {
        let ghost prev = views(out@);
        let copy = from[i].duplicate();
        out.push(copy);
        i += 1;
        assert(views(out@) =~= prev.push(from[i - 1]@));
        assert(views(out@) =~= before + views(from@).take(i as int));
    }
    assert(views(from@).take(from.len() as int) =~= views(from@));
}

/// The variables that count for `environment`, in the order in which they
/// are applied.
pub fn select_variables(
    table: &EnvironmentTable,
    environment: &str,
) -> (r: Vec<EnvironmentVariable>)
    ensures
        views(r@) == selected(table@, environment@),
{
    let mut out: Vec<EnvironmentVariable> = Vec::new();
    assert(views(out@) =~= Seq::empty());
    match table.get("all") {
        Some(variables) => {
            append_variables(&mut out, variables);
        },
        None => {},
    }
    assert(views(out@) =~= scope_or_none(table@, all_scope()));
    if !str_eq(environment, "all") {
        match table.get(environment) {
            Some(variables) => {
                append_variables(&mut out, variables);
            },
            None => {},
        }
    }
    assert(views(out@) =~= selected(table@, environment@));
    out
}

/// The variables that count for a configuration and an environment.
pub fn selected_variables(config: &DeployConfig, environment: &str) -> (r: Vec<EnvironmentVariable>)
    ensures
        views(r@) == selected_of(config@, environment@),
{
    match &config.environment {
        Some(table) => select_variables(table, environment),
        None => {
            let out: Vec<EnvironmentVariable> = Vec::new();
            assert(views(out@) =~= Seq::empty());
            out
        },
    }
}

/// A lookup that a secret service has to answer.
#[derive(Debug, PartialEq, Eq)]
pub enum SecretRequest {
    /// Decrypt a ciphertext, given in base64, with a key.
    Decrypt { project: String, location: String, key_ring: String, key: String, ciphertext: String },
    /// Fetch a version of a secret.
    Fetch { project: String, name: String, version: u16 },
}

/// What a `SecretRequest` holds, its strings seen as character sequences.
pub enum SecretRequestView {
    Decrypt {
        project: Seq<char>,
        location: Seq<char>,
        key_ring: Seq<char>,
        key: Seq<char>,
        ciphertext: Seq<char>,
    },
    Fetch { project: Seq<char>, name: Seq<char>, version: u16 },
}

impl View for SecretRequest {
    type V = SecretRequestView;

    open spec fn view(&self) -> SecretRequestView {
        match self {
            SecretRequest::Decrypt {
                project,
                location,
                key_ring,
                key,
                ciphertext,
            } => SecretRequestView::Decrypt {
                project: project@,
                location: location@,
                key_ring: key_ring@,
                key: key@,
                ciphertext: ciphertext@,
            },
            SecretRequest::Fetch { project, name, version } => SecretRequestView::Fetch {
                project: project@,
                name: name@,
                version: *version,
            },
        }
    }
}

/// Which reference a variable needs and the configuration lacks.
#[derive(Clone, Copy, Debug, PartialEq, Eq, Structural)]
pub enum MissingReference {
    /// A variable is decrypted, and there is no key reference.
    Kms,
    /// A variable is fetched, and there is no secret store reference.
    SecretStore,
}

/// The value of a variable is looked up.
pub open spec fn is_indirect(v: EnvironmentVariableView) -> bool {
    !(v.value is Value)
}

/// Some variable of some scope is decrypted.
pub open spec fn uses_kms(table: Scopes) -> bool {
    exists|scope: Seq<char>, i: int|
        table.contains_key(scope) && 0 <= i < table[scope].len()
            && decrypted(#[trigger] table[scope][i])
}

/// Some variable of some scope is fetched.
pub open spec fn uses_secret_store(table: Scopes) -> bool {
    exists|scope: Seq<char>, i: int|
        table.contains_key(scope) && 0 <= i < table[scope].len()
            && fetched(#[trigger] table[scope][i])
}

/// The reference that the configuration lacks, if it lacks one: a variable
/// of any scope needs it, whatever the active environment. The key
/// reference is looked for first.
pub open spec fn missing_reference(config: DeployConfigView) -> Option<MissingReference> {
    match config.environment {
        Some(table) => if uses_kms(table) && config.gcp_kms is None {
            Some(MissingReference::Kms)
        } else if uses_secret_store(table) && config.gcp_ssm is None {
            Some(MissingReference::SecretStore)
        } else {
            None
        },
        None => None,
    }
}

/// A variable is decrypted.
pub open spec fn decrypted(v: EnvironmentVariableView) -> bool {
    v.value is FromGcpKms
}

/// A variable is fetched.
pub open spec fn fetched(v: EnvironmentVariableView) -> bool {
    v.value is FromGcpSsm
}

/// Whether some variable of a list is decrypted, and whether some is
/// fetched.
fn list_uses(variables: &Vec<EnvironmentVariable>) -> (r: (bool, bool))
    ensures
        r.0 == exists|i: int| 0 <= i < variables.len() && decrypted(#[trigger] variables[i]@),
        r.1 == exists|i: int| 0 <= i < variables.len() && fetched(#[trigger] variables[i]@),
{
    let mut kms = false;
    let mut ssm = false;
    let mut i: usize = 0;
    while i < variables.len()
        invariant
            i <= variables.len(),
            kms ==> exists|j: int| 0 <= j < i && decrypted(#[trigger] variables[j]@),
            ssm ==> exists|j: int| 0 <= j < i && fetched(#[trigger] variables[j]@),
            !kms ==> forall|j: int| 0 <= j < i ==> !decrypted(#[trigger] variables[j]@),
            !ssm ==> forall|j: int| 0 <= j < i ==> !fetched(#[trigger] variables[j]@),
        decreases variables.len() - i,
    {
        match &variables[i].value {
            EnvironmentVariableValue::Value(_) => {},
            EnvironmentVariableValue::FromGcpKms { .. } => {
                assert(decrypted(variables[i as int]@));
                kms = true;
            },
            EnvironmentVariableValue::FromGcpSsm { .. } => {
                assert(fetched(variables[i as int]@));
                ssm = true;
            },
        }
        proof {
            if kms {
                let j = choose|j: int| 0 <= j <= i && decrypted(#[trigger] variables[j]@);
                assert(0 <= j < i + 1 && decrypted(variables[j]@));
            }
            if ssm {
                let j = choose|j: int| 0 <= j <= i && fetched(#[trigger] variables[j]@);
                assert(0 <= j < i + 1 && fetched(variables[j]@));
            }
        }
        i += 1;
    }
    (kms, ssm)
}

/// Whether some variable of some scope is decrypted, and whether some is
/// fetched.
fn table_uses(table: &EnvironmentTable) -> (r: (bool, bool))
    ensures
        r.0 == uses_kms(table@),
        r.1 == uses_secret_store(table@),
{
    let mut kms = false;
    let mut ssm = false;
    let mut i: usize = 0;
    let ghost sv = scope_views(table.scopes@);
    while i < table.scopes.len()
        invariant
            sv == scope_views(table.scopes@),
            i <= table.scopes.len(),
            kms ==> uses_kms(table@),
            ssm ==> uses_secret_store(table@),
            !kms ==> forall|j: int, n: int|
                0 <= j < i && 0 <= n < table@[sv[j].0].len() ==> !decrypted(
                    #[trigger] table@[sv[j].0][n],
                ),
            !ssm ==> forall|j: int, n: int|
                0 <= j < i && 0 <= n < table@[sv[j].0].len() ==> !fetched(
                    #[trigger] table@[sv[j].0][n],
                ),
        decreases table.scopes.len() - i,
    {
        let key = &table.scopes[i].0;
        assert(sv[i as int].0 == key@);
        proof {
            crate::assoc::lemma_to_map_contains(sv, key@);
        }
        match table.get(key.as_str()) {
            Some(variables) => {
                let uses = list_uses(variables);
                if uses.0 {
                    proof {
                        let n = choose|n: int|
                            0 <= n < variables.len() && decrypted(#[trigger] variables[n]@);
                        assert(table@[key@][n] == variables[n]@);
                        assert(decrypted(table@[key@][n]));
                    }
                    kms = true;
                } else {
                    assert forall|n: int| 0 <= n < table@[key@].len() implies !decrypted(
                        #[trigger] table@[key@][n],
                    ) by {
                        assert(table@[key@][n] == variables[n]@);
                    }
                }
                if uses.1 {
                    proof {
                        let n = choose|n: int|
                            0 <= n < variables.len() && fetched(#[trigger] variables[n]@);
                        assert(table@[key@][n] == variables[n]@);
                        assert(fetched(table@[key@][n]));
                    }
                    ssm = true;
                } else {
                    assert forall|n: int| 0 <= n < table@[key@].len() implies !fetched(
                        #[trigger] table@[key@][n],
                    ) by {
                        assert(table@[key@][n] == variables[n]@);
                    }
                }
            },
            None => {},
        }
        i += 1;
    }
    proof {
        if !kms {
            assert forall|scope: Seq<char>, n: int|
                table@.contains_key(scope) && 0 <= n < table@[scope].len() implies !decrypted(
                #[trigger] table@[scope][n],
            ) by {
                crate::assoc::lemma_to_map_contains(sv, scope);
                let j = choose|j: int| 0 <= j < sv.len() && sv[j].0 == scope;
                assert(!decrypted(table@[sv[j].0][n]));
            }
        }
        if !ssm {
            assert forall|scope: Seq<char>, n: int|
                table@.contains_key(scope) && 0 <= n < table@[scope].len() implies !fetched(
                #[trigger] table@[scope][n],
            ) by {
                crate::assoc::lemma_to_map_contains(sv, scope);
                let j = choose|j: int| 0 <= j < sv.len() && sv[j].0 == scope;
                assert(!fetched(table@[sv[j].0][n]));
            }
        }
    }
    (kms, ssm)
}

/// Checks that the configuration has every reference that its variables
/// need.
pub fn validate_references(config: &DeployConfig) -> (r: Result<(), MissingReference>)
    ensures
        r is Ok == missing_reference(config@) is None,
        r matches Err(e) ==> missing_reference(config@) == Some(e),
{
    match &config.environment {
        Some(table) => {
            let uses = table_uses(table);
            if uses.0 && config.gcp_kms.is_none() {
                Err(MissingReference::Kms)
            } else if uses.1 && config.gcp_ssm.is_none() {
                Err(MissingReference::SecretStore)
            } else {
                Ok(())
            }
        },
        None => Ok(()),
    }
}

/// The lookup that a variable needs, where the configuration has the
/// reference for it.
pub open spec fn request_of(
    v: EnvironmentVariableView,
    kms: Option<FlyGcpKmsView>,
    ssm: Option<FlyGcpSsmView>,
) -> Option<SecretRequestView> {
    match v.value {
        EnvironmentVariableValueView::Value(_) => None,
        EnvironmentVariableValueView::FromGcpKms { value } => match kms {
            Some(k) => Some(
                SecretRequestView::Decrypt {
                    project: k.project,
                    location: k.location,
                    key_ring: k.key_ring,
                    key: k.key,
                    ciphertext: value,
                },
            ),
            None => None,
        },
        EnvironmentVariableValueView::FromGcpSsm { name, version } => match ssm {
            Some(s) => Some(SecretRequestView::Fetch { project: s.project, name, version }),
            None => None,
        },
    }
}

/// The lookups that a list of variables needs, in the order of the
/// variables.
pub open spec fn requests(
    vars: Seq<EnvironmentVariableView>,
    kms: Option<FlyGcpKmsView>,
    ssm: Option<FlyGcpSsmView>,
) -> Seq<SecretRequestView>
    decreases vars.len(),
{
    if vars.len() == 0 {
        Seq::empty()
    } else {
        let front = requests(vars.drop_last(), kms, ssm);
        match request_of(vars.last(), kms, ssm) {
            Some(r) => front.push(r),
            None => front,
        }
    }
}

/// How many of the variables have a value that is looked up.
pub open spec fn indirect_count(vars: Seq<EnvironmentVariableView>) -> nat
    decreases vars.len(),
{
    if vars.len() == 0 {
        0
    } else {
        indirect_count(vars.drop_last()) + if is_indirect(vars.last()) {
            1nat
        } else {
            0nat
        }
    }
}

/// The lookups of the variables that count for an environment, in the
/// order of the variables: one for each variable whose value is looked up.
/// Nothing is asked where the configuration lacks a reference that a
/// variable of any scope needs.
pub fn secret_requests(config: &DeployConfig, environment: &str) -> (r: Result<
    Vec<SecretRequest>,
    MissingReference,
>)
    ensures
        r is Ok == missing_reference(config@) is None,
        r matches Err(e) ==> missing_reference(config@) == Some(e),
        r matches Ok(asked) ==> views(asked@) == requests(
            selected_of(config@, environment@),
            config@.gcp_kms,
            config@.gcp_ssm,
        ),
{
    match validate_references(config) {
        Err(e) => { return Err(e); },
        Ok(()) => {},
    }
    let variables = selected_variables(config, environment);
    let mut out: Vec<SecretRequest> = Vec::new();
    let mut i: usize = 0;
    let ghost vars = views(variables@);
    let ghost kms = config@.gcp_kms;
    let ghost ssm = config@.gcp_ssm;
    assert(vars.take(0) =~= Seq::empty());
    assert(views(out@) =~= Seq::empty());
    while i < variables.len()
        invariant
            vars == views(variables@),
            kms == config@.gcp_kms,
            ssm == config@.gcp_ssm,
            i <= variables.len(),
            views(out@) == requests(vars.take(i as int), kms, ssm),
        decreases variables.len() - i,
    {
        let ghost before = views(out@);
        proof {
            assert(vars.take(i + 1).drop_last() =~= vars.take(i as int));
            assert(vars.take(i + 1).last() == variables[i as int]@);
        }
        match &variables[i].value {
            EnvironmentVariableValue::Value(_) => {},
            EnvironmentVariableValue::FromGcpKms { value } => match &config.gcp_kms {
                Some(k) => {
                    out.push(
                        SecretRequest::Decrypt {
                            project: k.project.clone(),
                            location: k.location.clone(),
                            key_ring: k.key_ring.clone(),
                            key: k.key.clone(),
                            ciphertext: value.clone(),
                        },
                    );
                    assert(views(out@) =~= before.push(out[out.len() - 1]@));
                },
                None => {},
            },
            EnvironmentVariableValue::FromGcpSsm { name, version } => match &config.gcp_ssm {
                Some(s) => {
                    out.push(
                        SecretRequest::Fetch {
                            project: s.project.clone(),
                            name: name.clone(),
                            version: *version,
                        },
                    );
                    assert(views(out@) =~= before.push(out[out.len() - 1]@));
                },
                None => {},
            },
        }
        i += 1;
    }
    assert(vars.take(variables.len() as int) =~= vars);
    Ok(out)
}

/// What the secret services answered: for each lookup the plaintext, or
/// nothing where the lookup failed.
pub open spec fn answers(outcomes: Seq<Result<String, String>>) -> Seq<Option<Seq<char>>> {
    Seq::new(
        outcomes.len(),
        |i: int|
            match outcomes[i] {
                Ok(s) => Some(s@),
                Err(_) => None,
            },
    )
}

/// The answer to lookup `k`; a lookup without an answer has failed.
pub open spec fn answer_at(given: Seq<Option<Seq<char>>>, k: int) -> Option<Seq<char>> {
    if 0 <= k < given.len() {
        given[k]
    } else {
        None
    }
}

/// The value that variable `p` of a list resolves to, if it does: its
/// literal, or the answer to its lookup. The lookups are counted in the
/// order of the variables.
pub open spec fn value_at(
    vars: Seq<EnvironmentVariableView>,
    given: Seq<Option<Seq<char>>>,
    p: int,
) -> Option<Seq<char>> {
    match vars[p].value {
        EnvironmentVariableValueView::Value(s) => Some(s),
        _ => answer_at(given, indirect_count(vars.take(p)) as int),
    }
}

/// The environment that a list of variables resolves to: the variables are
/// applied in order, each binding its key to its value, and a variable
/// whose lookup failed changes nothing.
pub open spec fn resolved(vars: Seq<EnvironmentVariableView>, given: Seq<Option<Seq<char>>>) -> Map<
    Seq<char>,
    Seq<char>,
>
    decreases vars.len(),
{
    if vars.len() == 0 {
        Map::empty()
    } else {
        let rest = resolved(vars.drop_last(), given);
        match value_at(vars, given, vars.len() - 1) {
            Some(v) => rest.insert(vars.last().key, v),
            None => rest,
        }
    }
}

/// A lookup that failed: the key of the variable, and what the service
/// said.
#[derive(Debug, PartialEq, Eq)]
pub struct ResolutionFailure {
    pub key: String,
    pub message: String,
}

/// What a `ResolutionFailure` holds, its strings seen as character sequences.
pub struct ResolutionFailureView {
    pub key: Seq<char>,
    pub message: Seq<char>,
}

impl View for ResolutionFailure {
    type V = ResolutionFailureView;

    open spec fn view(&self) -> ResolutionFailureView {
        ResolutionFailureView { key: self.key@, message: self.message@ }
    }
}

impl ResolutionFailure {
    /// The line that tells the user of this failure.
    pub open spec fn line(self) -> Seq<char> {
        "Error resolving "@ + self.key@ + ": "@ + self.message@
    }

    /// The line that tells the user of this failure.
    pub fn describe(&self) -> (r: String)
        ensures
            r@ == self.line(),
    {
        let mut out = String::from_str("Error resolving ");
        out.append(self.key.as_str());
        out.append(": ");
        out.append(self.message.as_str());
        out
    }
}

/// What the service said where lookup `k` failed; nothing where it gave no
/// answer at all.
pub open spec fn complaint_at(outcomes: Seq<Result<String, String>>, k: int) -> Seq<char> {
    if 0 <= k < outcomes.len() && outcomes[k] is Err {
        outcomes[k]->Err_0@
    } else {
        Seq::empty()
    }
}

/// The lookups that failed, in the order of the variables.
pub open spec fn failed(
    vars: Seq<EnvironmentVariableView>,
    outcomes: Seq<Result<String, String>>,
) -> Seq<ResolutionFailureView>
    decreases vars.len(),
{
    if vars.len() == 0 {
        Seq::empty()
    } else {
        let front = failed(vars.drop_last(), outcomes);
        if value_at(vars, answers(outcomes), vars.len() - 1) is None {
            front.push(
                ResolutionFailureView {
                    key: vars.last().key,
                    message: complaint_at(outcomes, indirect_count(vars.drop_last()) as int),
                },
            )
        } else {
            front
        }
    }
}

/// A resolved environment, and the lookups that failed on the way.
#[derive(Debug, PartialEq, Eq)]
pub struct Resolution {
    pub environment: StringMap,
    pub failures: Vec<ResolutionFailure>,
}

/// Resolves a list of variables, given the outcomes of their lookups in
/// the order of `secret_requests`. A failed lookup is recorded and does not
/// stop the others.
pub fn resolve_environment(
    variables: &Vec<EnvironmentVariable>,
    outcomes: &Vec<Result<String, String>>,
) -> (r: Resolution)
    ensures
        r.environment@ == resolved(views(variables@), answers(outcomes@)),
        views(r.failures@) == failed(views(variables@), outcomes@),
{
    let mut environment = StringMap::new();
    let mut failures: Vec<ResolutionFailure> = Vec::new();
    let mut i: usize = 0;
    let mut k: usize = 0;
    let ghost vars = views(variables@);
    let ghost given = answers(outcomes@);
    assert(vars.take(0) =~= Seq::empty());
    assert(views(failures@) =~= Seq::empty());
    while i < variables.len()
        invariant
            vars == views(variables@),
            given == answers(outcomes@),
            i <= variables.len(),
            k <= i,
            k == indirect_count(vars.take(i as int)),
            environment@ == resolved(vars.take(i as int), given),
            views(failures@) == failed(vars.take(i as int), outcomes@),
        decreases variables.len() - i,
    {
        let ghost before = views(failures@);
        proof {
            let next = vars.take(i + 1);
            assert(next.drop_last() =~= vars.take(i as int));
            assert(next.last() == variables[i as int]@);
            assert(next.take(next.len() - 1) =~= vars.take(i as int));
        }
        let variable = &variables[i];
        match &variable.value {
            EnvironmentVariableValue::Value(v) => {
                environment.insert(variable.key.clone(), v.clone());
            },
            _ => {
                if k < outcomes.len() {
                    match &outcomes[k] {
                        Ok(plaintext) => {
                            environment.insert(variable.key.clone(), plaintext.clone());
                        },
                        Err(message) => {
                            failures.push(
                                ResolutionFailure {
                                    key: variable.key.clone(),
                                    message: message.clone(),
                                },
                            );
                            assert(views(failures@) =~= before.push(failures[failures.len() - 1]@));
                        },
                    }
                } else {
                    failures.push(
                        ResolutionFailure { key: variable.key.clone(), message: String::new() },
                    );
                    assert(views(failures@) =~= before.push(failures[failures.len() - 1]@));
                }
                k += 1;
            },
        }
        i += 1;
    }
    assert(vars.take(variables.len() as int) =~= vars);
    Resolution { environment, failures }
}

/// A shorter list resolves its variables as the longer one does.
proof fn lemma_value_at_prefix(
    vars: Seq<EnvironmentVariableView>,
    given: Seq<Option<Seq<char>>>,
    p: int,
)
    requires
        0 <= p < vars.len() - 1,
    ensures
        value_at(vars.drop_last(), given, p) == value_at(vars, given, p),
{
    assert(vars.drop_last().take(p) =~= vars.take(p));
}

/// A key is bound exactly where some variable of that key resolves.
pub proof fn lemma_resolved_keys(
    vars: Seq<EnvironmentVariableView>,
    given: Seq<Option<Seq<char>>>,
    key: Seq<char>,
)
    ensures
        resolved(vars, given).contains_key(key) <==> exists|p: int|
            0 <= p < vars.len() && (#[trigger] vars[p]).key == key
                && value_at(vars, given, p) is Some,
    decreases vars.len(),
{
    if vars.len() > 0 {
        let front = vars.drop_last();
        let last = vars.len() - 1;
        lemma_resolved_keys(front, given, key);
        if resolved(vars, given).contains_key(key) {
            if value_at(vars, given, last) is Some && vars.last().key == key {
                assert(vars[last].key == key && value_at(vars, given, last) is Some);
            } else {
                let p = choose|p: int|
                    0 <= p < front.len() && (#[trigger] front[p]).key == key && value_at(
                        front,
                        given,
                        p,
                    ) is Some;
                lemma_value_at_prefix(vars, given, p);
                assert(vars[p].key == key && value_at(vars, given, p) is Some);
            }
        }
        if exists|p: int|
            0 <= p < vars.len() && (#[trigger] vars[p]).key == key && value_at(vars, given, p) is Some {
            let p = choose|p: int|
                0 <= p < vars.len() && (#[trigger] vars[p]).key == key && value_at(vars, given, p)
                    is Some;
            if p < last {
                lemma_value_at_prefix(vars, given, p);
                assert(front[p].key == key && value_at(front, given, p) is Some);
            }
        }
    }
}

/// The last variable of a key that resolves decides the value of the key.
pub proof fn lemma_last_resolved_wins(
    vars: Seq<EnvironmentVariableView>,
    given: Seq<Option<Seq<char>>>,
    p: int,
)
    requires
        0 <= p < vars.len(),
        value_at(vars, given, p) is Some,
        forall|q: int|
            p < q < vars.len() && (#[trigger] vars[q]).key == vars[p].key ==> value_at(vars, given, q)
                is None,
    ensures
        resolved(vars, given).contains_key(vars[p].key),
        resolved(vars, given)[vars[p].key] == value_at(vars, given, p)->0,
    decreases vars.len(),
{
    let last = vars.len() - 1;
    if p < last {
        let front = vars.drop_last();
        lemma_value_at_prefix(vars, given, p);
        assert forall|q: int| p < q < front.len() && (#[trigger] front[q]).key == front[p].key implies value_at(
            front,
            given,
            q,
        ) is None by {
            lemma_value_at_prefix(vars, given, q);
            assert(vars[q].key == vars[p].key);
        }
        lemma_last_resolved_wins(front, given, p);
        if vars[last].key == vars[p].key {
            assert(value_at(vars, given, last) is None);
        }
    }
}

/// A key all of whose variables fail is left out, and that is all that a
/// failure does: the other keys are bound as `lemma_last_resolved_wins`
/// says.
pub proof fn lemma_failed_key_omitted(
    vars: Seq<EnvironmentVariableView>,
    given: Seq<Option<Seq<char>>>,
    key: Seq<char>,
)
    requires
        forall|p: int|
            0 <= p < vars.len() && (#[trigger] vars[p]).key == key
                ==> value_at(vars, given, p) is None,
    ensures
        !resolved(vars, given).contains_key(key),
{
    lemma_resolved_keys(vars, given, key);
}

/// A variable of the environment's own scope overrides the variables of
/// scope `all`: where variable `i` of that scope resolves, and no later
/// variable of the scope resolves for the same key, the key has its value,
/// whatever scope `all` holds.
pub proof fn lemma_own_scope_overrides(
    table: Scopes,
    environment: Seq<char>,
    given: Seq<Option<Seq<char>>>,
    i: int,
)
    requires
        environment != all_scope(),
        table.contains_key(environment),
        0 <= i < table[environment].len(),
        value_at(
            selected(table, environment),
            given,
            scope_or_none(table, all_scope()).len() + i,
        ) is Some,
        forall|j: int|
            i < j < table[environment].len() && (#[trigger] table[environment][j]).key
                == table[environment][i].key ==> value_at(
                selected(table, environment),
                given,
                scope_or_none(table, all_scope()).len() + j,
            ) is None,
    ensures
        resolved(selected(table, environment), given).contains_key(table[environment][i].key),
        resolved(selected(table, environment), given)[table[environment][i].key] == value_at(
            selected(table, environment),
            given,
            scope_or_none(table, all_scope()).len() + i,
        )->0,
{
    let vars = selected(table, environment);
    let shared = scope_or_none(table, all_scope()).len();
    let p = shared + i;
    assert(vars[p] == table[environment][i]);
    assert forall|q: int| p < q < vars.len() && (#[trigger] vars[q]).key == vars[p].key implies value_at(
        vars,
        given,
        q,
    ) is None by {
        assert(vars[q] == table[environment][q - shared]);
    }
    lemma_last_resolved_wins(vars, given, p);
}

} // verus!
