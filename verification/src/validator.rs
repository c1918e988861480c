//! Validation of v2 intent envelopes against the core intent schema, and of
//! native tool parameters against the schemas of the integration manifests.

use vstd::prelude::*;
use crate::error::RmngError;
use crate::json::{json_as_str, json_field, json_is_null, json_model, str_member, JsonModel};
use crate::intent::{CoreIntent, CORE_INTENT_SCHEMA_VERSION};
use crate::order::{lemma_lex_asymmetric, lemma_lex_irreflexive, lex_lt, same_names, strictly_sorted};
use crate::registry::{tool_names, IntegrationRegistry};
use crate::text::{concat2, concat3, join_with, joined, str_equal, views};

verus! {

/// The error with which `jsonschema::validator_for` refuses a schema (its
/// `Display` text), or none when the schema compiles. It depends on the
/// schema alone.
pub uninterp spec fn schema_refusal(schema: JsonModel) -> Option<Seq<char>>;

/// The errors `jsonschema` reports for an instance under a schema (the
/// `Display` text of each item of `iter_errors`, in the crate's order), or
/// the one compile error of a schema that does not compile. They depend on
/// the schema and the instance alone.
pub uninterp spec fn schema_messages(schema: JsonModel, instance: JsonModel) -> Seq<Seq<char>>;

/// `jsonschema::validator_for`: the text of the error that refuses the
/// schema, or none when it compiles.
#[verifier::external_body]
fn schema_compile_error(schema: &serde_json::Value) -> (r: Option<String>)
    ensures
        r is Some <==> schema_refusal(json_model(*schema)) is Some,
        r matches Some(t) ==> schema_refusal(json_model(*schema)) == Some(t@),
{
    jsonschema::validator_for(schema).err().map(|e| e.to_string())
}

/// `jsonschema::Validator::iter_errors` of the compiled `schema` on
/// `instance`: the text of each error, in the order the crate reports them
/// (a schema that does not compile gives its compile error as the one
/// entry).
#[verifier::external_body]
fn schema_violations(schema: &serde_json::Value, instance: &serde_json::Value) -> (r: Vec<String>)
    ensures
        views(r@) == schema_messages(json_model(*schema), json_model(*instance)),
{
    match jsonschema::validator_for(schema) {
        Ok(v) => v.iter_errors(instance).map(|e| e.to_string()).collect(),
        Err(e) => vec![e.to_string()],
    }
}

/// The error text for a tool that no manifest declares.
pub open spec fn unknown_tool_message(name: Seq<char>) -> Seq<char> {
    "unknown native tool '"@ + name + "' (not in integration manifests)"@
}

/// What a tool's parameters yield, given the schema errors found in them.
pub open spec fn parameters_outcome(name: Seq<char>, messages: Seq<Seq<char>>) -> Option<Seq<char>> {
    if messages.len() == 0 {
        None
    } else {
        Some("tool '"@ + name + "' parameters invalid: "@ + joined(messages, "; "@))
    }
}

/// What an envelope yields, given its `schema_version` string and the core
/// schema errors found in it.
pub open spec fn envelope_outcome(version: Option<Seq<char>>, messages: Seq<Seq<char>>) -> Option<Seq<char>> {
    match version {
        Some(v) if v != "2"@ => Some("unsupported core intent schema_version '"@ + v + "' (expected 2)"@),
        _ => if messages.len() == 0 {
            None
        } else {
            Some("core intent schema validation failed: "@ + joined(messages, "; "@))
        },
    }
}

/// The error a message stands for.
pub open spec fn outcome_of(r: Result<(), RmngError>) -> Option<Seq<char>> {
    match r {
        Ok(_) => None,
        Err(RmngError::InvalidIntent(m)) => Some(m@),
        Err(_) => Some(Seq::empty()),
    }
}

/// Decides a tool's parameters from the schema errors found in them.
pub fn parameters_verdict(tool_name: &str, messages: &Vec<String>) -> (r: Result<(), RmngError>)
    ensures
        r is Ok || r matches Err(RmngError::InvalidIntent(_)),
        outcome_of(r) == parameters_outcome(tool_name@, views(messages@)),
{
    if messages.len() == 0 {
        return Ok(());
    }
    let joined_text = join_with(messages, "; ");
    let head = concat3("tool '", tool_name, "' parameters invalid: ");
    let m = concat2(head.as_str(), joined_text.as_str());
    proof {
        reveal_strlit("; ");
        reveal_strlit("tool '");
        reveal_strlit("' parameters invalid: ");
    }
    Err(RmngError::InvalidIntent(m))
}

/// Decides an envelope from its `schema_version` string and the core schema
/// errors found in it.
pub fn envelope_verdict(version: Option<String>, messages: &Vec<String>) -> (r: Result<(), RmngError>)
    ensures
        r is Ok || r matches Err(RmngError::InvalidIntent(_)),
        outcome_of(r) == envelope_outcome(
            match version {
                Some(v) => Some(v@),
                None => None,
            },
            views(messages@),
        ),
{
    proof {
        reveal_strlit("2");
        reveal_strlit("; ");
        reveal_strlit("unsupported core intent schema_version '");
        reveal_strlit("' (expected 2)");
        reveal_strlit("core intent schema validation failed: ");
    }
    if let Some(v) = &version {
        if !str_equal(v.as_str(), CORE_INTENT_SCHEMA_VERSION) {
            let m = concat3("unsupported core intent schema_version '", v.as_str(), "' (expected 2)");
            return Err(RmngError::InvalidIntent(m));
        }
    }
    if messages.len() == 0 {
        return Ok(());
    }
    let joined_text = join_with(messages, "; ");
    Err(RmngError::InvalidIntent(concat2("core intent schema validation failed: ", joined_text.as_str())))
}

/// The schema of the first entry named `name`.
pub open spec fn schema_in(entries: Seq<(String, serde_json::Value)>, name: Seq<char>) -> Option<serde_json::Value>
    decreases entries.len(),
{
    if entries.len() == 0 {
        None
    } else if entries[0].0@ == name {
        Some(entries[0].1)
    } else {
        schema_in(entries.drop_first(), name)
    }
}

proof fn lemma_schema_in_push(s: Seq<(String, serde_json::Value)>, x: (String, serde_json::Value), n: Seq<char>)
    ensures
        schema_in(s.push(x), n) == match schema_in(s, n) {
            Some(v) => Some(v),
            None => if x.0@ == n { Some(x.1) } else { None },
        },
    decreases s.len(),
{
    if s.len() > 0 {
        assert(s.push(x)[0] == s[0]);
        assert(s.push(x).drop_first() =~= s.drop_first().push(x));
        lemma_schema_in_push(s.drop_first(), x, n);
    } else {
        assert(s.push(x)[0] == x);
        assert(s.push(x).drop_first() =~= Seq::<(String, serde_json::Value)>::empty());
        assert(schema_in(Seq::<(String, serde_json::Value)>::empty(), n) is None);
    }
}

proof fn lemma_schema_in_absent(s: Seq<(String, serde_json::Value)>, n: Seq<char>)
    requires
        forall|k: int| 0 <= k < s.len() ==> (#[trigger] s[k]).0@ != n,
    ensures
        schema_in(s, n) is None,
    decreases s.len(),
{
    if s.len() > 0 {
        assert forall|k: int| 0 <= k < s.drop_first().len() implies (#[trigger] s.drop_first()[k]).0@ != n by {
            assert(s.drop_first()[k] == s[k + 1]);
        }
        lemma_schema_in_absent(s.drop_first(), n);
    }
}

/// The parameter schema a declared tool is checked against: its schema,
/// unless that is `null` (no schema).
pub open spec fn declared_schema(registry: IntegrationRegistry, name: Seq<char>) -> Option<serde_json::Value> {
    match registry.spec_tool(name) {
        Some(t) => if json_model(t.parameters) is Null { None } else { Some(t.parameters) },
        None => None,
    }
}

/// The core schema and the parameter schema of every declared tool that has
/// one compile.
pub open spec fn schemas_compile(registry: IntegrationRegistry, core_schema: serde_json::Value) -> bool {
    &&& schema_refusal(json_model(core_schema)) is None
    &&& forall|n: Seq<char>| #[trigger] declared_schema(registry, n) matches Some(s) ==> schema_refusal(json_model(s)) is None
}

/// The declared tool `name` has a schema that does not compile.
pub open spec fn refused(registry: IntegrationRegistry, name: Seq<char>) -> bool {
    declared_schema(registry, name) matches Some(s) && schema_refusal(json_model(s)) is Some
}

/// `name` is the first tool, in name order, whose schema does not compile.
pub open spec fn first_refused(registry: IntegrationRegistry, name: Seq<char>) -> bool {
    &&& refused(registry, name)
    &&& forall|n: Seq<char>| #[trigger] lex_lt(n, name) ==> !refused(registry, n)
}

/// The error text for a tool whose parameter schema does not compile.
pub open spec fn tool_schema_error(registry: IntegrationRegistry, name: Seq<char>) -> Seq<char> {
    "compile parameters schema for "@ + name + ": "@
        + schema_refusal(json_model(declared_schema(registry, name)->Some_0))->Some_0
}

/// Validates v2 envelopes and per-tool parameter schemas.
pub struct IntentValidator {
    core_schema: serde_json::Value,
    registry: IntegrationRegistry,
    tool_schemas: Vec<(String, serde_json::Value)>,
}

impl IntentValidator {
    /// The core intent schema.
    pub closed spec fn spec_core_schema(&self) -> serde_json::Value {
        self.core_schema
    }

    /// The registry the tools are checked against.
    pub closed spec fn spec_registry(&self) -> IntegrationRegistry {
        self.registry
    }

    /// The parameter schemas, by tool name.
    pub closed spec fn spec_tool_schemas(&self) -> Seq<(String, serde_json::Value)> {
        self.tool_schemas@
    }

    /// The parameter schema of a tool, if it has one.
    pub open spec fn schema_of(&self, name: Seq<char>) -> Option<serde_json::Value> {
        schema_in(self.spec_tool_schemas(), name)
    }

    /// What the validator answers for a tool's parameters: an unknown tool
    /// is refused; a tool without a schema takes any parameters; otherwise
    /// the schema's errors decide (see `parameters_outcome`).
    pub open spec fn tool_outcome(&self, name: Seq<char>, parameters: JsonModel) -> Option<Seq<char>> {
        if self.spec_registry().spec_tool(name) is None {
            Some(unknown_tool_message(name))
        } else {
            match self.schema_of(name) {
                None => None,
                Some(s) => parameters_outcome(name, schema_messages(json_model(s), parameters)),
            }
        }
    }

    /// What the validator answers for an envelope (see `envelope_outcome`).
    pub open spec fn spec_envelope_outcome(&self, envelope: JsonModel) -> Option<Seq<char>> {
        envelope_outcome(str_member(envelope, "schema_version"@), schema_messages(json_model(self.spec_core_schema()), envelope))
    }

    /// What the validator answers for a v2 intent with the given JSON form:
    /// the envelope's answer, then, for a native call, the tool's.
    pub open spec fn spec_validate(&self, intent: CoreIntent, envelope: JsonModel) -> Option<Seq<char>> {
        match self.spec_envelope_outcome(envelope) {
            Some(m) => Some(m),
            None => match intent {
                CoreIntent::ToolExecute { target, parameters, .. } => self.tool_outcome(target@, json_model(parameters)),
                _ => None,
            },
        }
    }

    /// Compiles the core schema and the parameter schema of every declared
    /// tool that has one (a `null` schema means none).
    pub fn new(registry: IntegrationRegistry, core_schema: serde_json::Value) -> (r: Result<Self, RmngError>)
        ensures
            r matches Ok(v) ==> {
                &&& v.spec_registry() == registry
                &&& v.spec_core_schema() == core_schema
                &&& forall|k: int| 0 <= k < v.spec_tool_schemas().len() ==> {
                    let (n, s) = #[trigger] v.spec_tool_schemas()[k];
                    registry.spec_tool(n@) matches Some(t) && t.parameters == s
                }
                &&& forall|n: Seq<char>| registry.spec_tool(n) is Some ==> #[trigger] v.schema_of(n) == declared_schema(registry, n)
            },
            r is Ok <==> schemas_compile(registry, core_schema),
            schema_refusal(json_model(core_schema)) matches Some(e)
                ==> (r matches Err(RmngError::InvalidIntent(m)) && m@ == "compile core intent schema: "@ + e),
            schema_refusal(json_model(core_schema)) is None && !schemas_compile(registry, core_schema)
                ==> (r matches Err(RmngError::InvalidIntent(m)) && exists|n: Seq<char>|
                    #[trigger] first_refused(registry, n) && m@ == tool_schema_error(registry, n)),
            r matches Err(e) ==> e matches RmngError::InvalidIntent(m) && (
                "compile core intent schema: "@.is_prefix_of(m@)
                || exists|n: Seq<char>| registry.spec_tool(n) is Some && #[trigger] ("compile parameters schema for "@ + n + ": "@).is_prefix_of(m@)
            ),
    {
        proof {
            reveal_strlit("compile core intent schema: ");
            reveal_strlit("compile parameters schema for ");
            reveal_strlit(": ");
        }
        if let Some(e) = schema_compile_error(&core_schema) {
            let m = concat2("compile core intent schema: ", e.as_str());
            assert(m@.subrange(0, "compile core intent schema: "@.len() as int) =~= "compile core intent schema: "@);
            return Err(RmngError::InvalidIntent(m));
        }
        let names = registry.allowed_tool_names();
        let mut tool_schemas: Vec<(String, serde_json::Value)> = Vec::new();
        let mut i: usize = 0;
        while i < names.len()
            invariant
                i <= names.len(),
                strictly_sorted(views(names@)),
                same_names(views(names@), tool_names(registry.spec_tools())),
                schema_refusal(json_model(core_schema)) is None,
                forall|k: int| 0 <= k < tool_schemas@.len() ==> {
                    let (n, s) = #[trigger] tool_schemas@[k];
                    registry.spec_tool(n@) matches Some(t) && t.parameters == s
                },
                forall|k: int, j: int| 0 <= k < tool_schemas@.len() && i <= j < names@.len()
                    ==> (#[trigger] tool_schemas@[k]).0@ != (#[trigger] names@[j])@,
                forall|j: int| 0 <= j < i ==> schema_in(tool_schemas@, (#[trigger] names@[j])@) == declared_schema(registry, names@[j]@),
                forall|j: int| 0 <= j < i ==> (declared_schema(registry, (#[trigger] names@[j])@) matches Some(s)
                    ==> schema_refusal(json_model(s)) is None),
            decreases names.len() - i,
        {
            let name = &names[i];
            let ghost before = tool_schemas@;
            proof {
                assert forall|j: int| i < j < names@.len() implies names@[i as int]@ != (#[trigger] names@[j])@ by {
                    assert(views(names@)[i as int] == names@[i as int]@);
                    assert(views(names@)[j] == names@[j]@);
                    assert(lex_lt(views(names@)[i as int], views(names@)[j]));
                    lemma_lex_irreflexive(names@[i as int]@);
                }
                assert forall|k: int| 0 <= k < before.len() implies (#[trigger] before[k]).0@ != name@ by {
                    assert(before[k].0@ != names@[i as int]@);
                }
                lemma_schema_in_absent(before, name@);
            }
            match registry.tool(name.as_str()) {
                None => {},
                Some(tool) => {
                    if !json_is_null(&tool.parameters) {
                        if let Some(e) = schema_compile_error(&tool.parameters) {
                            let m = concat3("compile parameters schema for ", name.as_str(), ": ");
                            let m = concat2(m.as_str(), e.as_str());
                            let ghost pre = "compile parameters schema for "@ + name@ + ": "@;
                            assert(m@.subrange(0, pre.len() as int) =~= pre);
                            assert(registry.spec_tool(name@) is Some);
                            assert(pre.is_prefix_of(m@));
                            assert(declared_schema(registry, name@) == Some(tool.parameters));
                            assert(!schemas_compile(registry, core_schema));
                            proof {
                                assert(refused(registry, name@));
                                assert forall|n2: Seq<char>| #[trigger] lex_lt(n2, name@) implies !refused(registry, n2) by {
                                    if refused(registry, n2) {
                                        let k = choose|k: int| 0 <= k < registry.spec_tools().len() && (#[trigger] registry.spec_tools()[k]).name@ == n2;
                                        assert(tool_names(registry.spec_tools())[k] == n2);
                                        assert(views(names@).contains(n2));
                                        let j = choose|j: int| 0 <= j < views(names@).len() && views(names@)[j] == n2;
                                        assert(names@[j]@ == n2);
                                        if j < i {
                                        } else if j == i {
                                            lemma_lex_irreflexive(n2);
                                        } else {
                                            assert(lex_lt(views(names@)[i as int], views(names@)[j]));
                                            assert(views(names@)[i as int] == name@);
                                            lemma_lex_asymmetric(name@, n2);
                                        }
                                    }
                                }
                                assert(first_refused(registry, name@));
                                assert(m@ == tool_schema_error(registry, name@));
                            }
                            return Err(RmngError::InvalidIntent(m));
                        }
                        let entry = (name.clone(), tool.parameters.clone());
                        tool_schemas.push(entry);
                        proof {
                            assert forall|n: Seq<char>| #![trigger schema_in(tool_schemas@, n)] schema_in(tool_schemas@, n) == match schema_in(before, n) {
                                Some(v) => Some(v),
                                None => if entry.0@ == n { Some(entry.1) } else { None },
                            } by {
                                assert(tool_schemas@ == before.push(entry));
                                lemma_schema_in_push(before, entry, n);
                            }
                        }
                    }
                },
            }
            proof {
                assert forall|j: int| 0 <= j < i + 1 implies schema_in(tool_schemas@, (#[trigger] names@[j])@) == declared_schema(registry, names@[j]@) by {
                    if j < i {
                        assert(names@[j]@ != name@) by {
                            assert(lex_lt(views(names@)[j], views(names@)[i as int]));
                            assert(views(names@)[j] == names@[j]@);
                            assert(views(names@)[i as int] == names@[i as int]@);
                            lemma_lex_irreflexive(names@[j]@);
                        }
                    }
                }
            }
            i = i + 1;
        }
        proof {
            assert forall|n: Seq<char>| #[trigger] declared_schema(registry, n) is Some implies schema_refusal(json_model(declared_schema(registry, n)->Some_0)) is None by {
                let t = registry.spec_tool(n)->Some_0;
                let k = choose|k: int| 0 <= k < registry.spec_tools().len() && (#[trigger] registry.spec_tools()[k]).name@ == n;
                assert(tool_names(registry.spec_tools())[k] == n);
                assert(views(names@).contains(n));
                let j = choose|j: int| 0 <= j < views(names@).len() && views(names@)[j] == n;
                assert(names@[j]@ == n);
            }
        }
        let v = IntentValidator { core_schema, registry, tool_schemas };
        proof {
            assert forall|n: Seq<char>| registry.spec_tool(n) is Some implies #[trigger] v.schema_of(n) == declared_schema(registry, n) by {
                let k = choose|k: int| 0 <= k < registry.spec_tools().len() && (#[trigger] registry.spec_tools()[k]).name@ == n;
                assert(tool_names(registry.spec_tools())[k] == n);
                assert(views(names@).contains(n));
                let j = choose|j: int| 0 <= j < views(names@).len() && views(names@)[j] == n;
                assert(names@[j]@ == n);
            }
        }
        Ok(v)
    }

    /// The registry the tools are checked against.
    pub fn registry(&self) -> (r: &IntegrationRegistry)
        ensures
            *r == self.spec_registry(),
    {
        &self.registry
    }

    fn find_schema(&self, name: &str) -> (r: Option<&serde_json::Value>)
        ensures
            match r {
                Some(s) => self.schema_of(name@) == Some(*s),
                None => self.schema_of(name@) is None,
            },
    {
        let ghost all = self.spec_tool_schemas();
        proof {
            assert(all.subrange(0, all.len() as int) =~= all);
        }
        let mut k: usize = 0;
        while k < self.tool_schemas.len()
            invariant
                k <= self.tool_schemas.len(),
                all == self.tool_schemas@,
                schema_in(all, name@) == schema_in(all.subrange(k as int, all.len() as int), name@),
            decreases self.tool_schemas.len() - k,
        {
            proof {
                assert(all.subrange(k as int, all.len() as int).drop_first() =~= all.subrange(k + 1, all.len() as int));
                assert(all.subrange(k as int, all.len() as int)[0] == all[k as int]);
            }
            if str_equal(self.tool_schemas[k].0.as_str(), name) {
                return Some(&self.tool_schemas[k].1);
            }
            k = k + 1;
        }
        proof {
            assert(all.subrange(k as int, all.len() as int).len() == 0);
        }
        None
    }

    /// Checks the parameters of a native tool call: the tool must be declared
    /// by a manifest, and its parameters must meet the tool's schema.
    pub fn validate_tool_parameters(&self, tool_name: &str, parameters: &serde_json::Value) -> (r: Result<(), RmngError>)
        ensures
            r is Ok || r matches Err(RmngError::InvalidIntent(_)),
            outcome_of(r) == self.tool_outcome(tool_name@, json_model(*parameters)),
    {
        if !self.registry.has_tool(tool_name) {
            proof {
                reveal_strlit("unknown native tool '");
                reveal_strlit("' (not in integration manifests)");
            }
            let m = concat3("unknown native tool '", tool_name, "' (not in integration manifests)");
            return Err(RmngError::InvalidIntent(m));
        }
        match self.find_schema(tool_name) {
            None => Ok(()),
            Some(schema) => {
                let messages = schema_violations(schema, parameters);
                let r = parameters_verdict(tool_name, &messages);
                assert(parameters_outcome(tool_name@, views(messages@)) == outcome_of(r));
                r
            },
        }
    }

    /// Checks an envelope (the JSON form of a v2 intent): its
    /// `schema_version`, when present, must be `2`, and it must meet the
    /// core intent schema.
    pub fn validate_envelope(&self, envelope: &serde_json::Value) -> (r: Result<(), RmngError>)
        ensures
            r is Ok || r matches Err(RmngError::InvalidIntent(_)),
            outcome_of(r) == self.spec_envelope_outcome(json_model(*envelope)),
    {
        let version = match json_field(envelope, "schema_version") {
            Some(v) => json_as_str(&v),
            None => None,
        };
        let messages = schema_violations(&self.core_schema, envelope);
        let ghost vv = if version is Some { Some(version->Some_0@) } else { None::<Seq<char>> };
        let r = envelope_verdict(version, &messages);
        assert(envelope_outcome(vv, views(messages@)) == outcome_of(r));
        r
    }

    /// Checks a parsed v2 intent given its JSON form: the envelope first,
    /// then, for a native call, the tool's parameters.
    pub fn validate(&self, intent: &CoreIntent, envelope: &serde_json::Value) -> (r: Result<(), RmngError>)
        ensures
            r is Ok || r matches Err(RmngError::InvalidIntent(_)),
            outcome_of(r) == self.spec_validate(*intent, json_model(*envelope)),
    {
        let e = self.validate_envelope(envelope);
        if e.is_err() {
            return e;
        }
        if let CoreIntent::ToolExecute { target, parameters, .. } = intent {
            return self.validate_tool_parameters(target.as_str(), parameters);
        }
        Ok(())
    }
}

/// A v2 intent is accepted exactly when its `schema_version`, if it has
/// one, is `2`, the core schema reports no violation in its envelope, and,
/// for a native call, the tool is declared and its schema, if it has one,
/// reports no violation in the parameters.
pub proof fn law_validate_accepts(v: IntentValidator, intent: CoreIntent, envelope: JsonModel)
    ensures
        v.spec_validate(intent, envelope) is None <==> {
            &&& (str_member(envelope, "schema_version"@) matches Some(x) ==> x == "2"@)
            &&& schema_messages(json_model(v.spec_core_schema()), envelope).len() == 0
            &&& (intent matches CoreIntent::ToolExecute { target, parameters, .. } ==> {
                &&& v.spec_registry().spec_tool(target@) is Some
                &&& (v.schema_of(target@) matches Some(s) ==> schema_messages(json_model(s), json_model(parameters)).len() == 0)
            })
        },
{
}

} // verus!
