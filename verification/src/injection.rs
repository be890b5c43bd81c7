//! Injection of the registered scripts into a page that has just loaded.
//!
//! The work is cut where the web-view comes in. [`request_script_injection`]
//! decides, from the registry alone, whether anything is to be executed and
//! builds the one script to execute; the caller hands that script to the
//! web-view; [`complete_injection`] turns what the web-view answered into
//! the report or the error that goes back to the page.

use crate::script_registry::{
    entries_map, has_id, ids_distinct, lemma_distinct_ids_counted, position_of, ScriptEntry,
    ScriptEntrySpec, ScriptRegistry, ScriptType,
};
use vstd::prelude::*;
use vstd::string::StringExecFns;

verus! {

/// `serde_json::Error`, carried through as an opaque value.
#[verifier::external_type_specification]
#[verifier::external_body]
pub struct ExJsonError(serde_json::Error);

/// The compact JSON text that `serde_json` writes for an array of objects
/// with string members: `rows[i]` lists the members of the i-th object as
/// (key, value) pairs, a later pair replacing an earlier one with its key.
pub uninterp spec fn json_objects_text(rows: Seq<Seq<(Seq<char>, Seq<char>)>>) -> Seq<char>;

/// The rows of a list of objects as mathematical values.
pub open spec fn rows_view(rows: Seq<Vec<(String, String)>>) -> Seq<Seq<(Seq<char>, Seq<char>)>> {
    rows.map_values(
        |row: Vec<(String, String)>| row@.map_values(|pair: (String, String)| (pair.0@, pair.1@)),
    )
}

/// `serde_json::to_string` on the array of the objects that `rows` lists.
/// Each row is collected into a `serde_json::Map` with its values held as
/// JSON strings. The text that comes back depends only on what the rows
/// hold. The call succeeds: it fails where a value refuses to be written
/// or a key is no string, and here every key and every value is a string
/// and the text goes into memory.
#[verifier::external_body]
fn objects_to_json(rows: &Vec<Vec<(String, String)>>) -> (outcome: Result<
    String,
    serde_json::Error,
>)
    ensures
        outcome is Ok,
        outcome->Ok_0@ == json_objects_text(rows_view(rows@)),
{
    let objects: Vec<serde_json::Map<String, serde_json::Value>> = rows.iter().map(
        |row| row.iter().map(|pair| (pair.0.clone(), serde_json::Value::from(pair.1.as_str()))).collect(),
    ).collect();
    serde_json::to_string(&objects)
}

/// The tag under which a script type travels in the payload.
pub open spec fn type_tag_text(script_type: ScriptType) -> Seq<char> {
    match script_type {
        ScriptType::Inline => "inline"@,
        ScriptType::Url => "url"@,
    }
}

/// The members of the payload object that stands for one entry.
pub open spec fn entry_row(entry: ScriptEntrySpec) -> Seq<(Seq<char>, Seq<char>)> {
    seq![
        ("id"@, entry.id),
        ("type"@, type_tag_text(entry.script_type)),
        ("content"@, entry.content),
    ]
}

/// The payload objects for a list of entries, in the order of the list.
pub open spec fn payload_rows(entries: Seq<ScriptEntrySpec>) -> Seq<Seq<(Seq<char>, Seq<char>)>> {
    entries.map_values(|entry: ScriptEntrySpec| entry_row(entry))
}

/// The payload that is sent where the entries cannot be written as JSON.
pub open spec fn empty_payload() -> Seq<char> {
    "[]"@
}

/// The script that calls the page's injection hook with `payload`, and does
/// nothing on a page that has not defined the hook.
pub open spec fn guarded_hook_call(payload: Seq<char>) -> Seq<char> {
    "if (window.__MCP_INJECT_SCRIPTS__) { window.__MCP_INJECT_SCRIPTS__("@ + payload + "); }"@
}

/// The ids of a list of entries, in the order of the list.
pub open spec fn entry_ids(entries: Seq<ScriptEntrySpec>) -> Seq<Seq<char>> {
    entries.map_values(|entry: ScriptEntrySpec| entry.id)
}

/// A list of entries as mathematical values.
pub open spec fn entries_view(scripts: Seq<ScriptEntry>) -> Seq<ScriptEntrySpec> {
    scripts.map_values(|entry: ScriptEntry| entry@)
}

/// A list of strings as mathematical values.
pub open spec fn strings_view(strings: Seq<String>) -> Seq<Seq<char>> {
    strings.map_values(|text: String| text@)
}

/// The tag under which a script type travels in the payload: `"inline"` or
/// `"url"`.
pub fn type_tag(script_type: ScriptType) -> (tag: &'static str)
    ensures
        tag@ == type_tag_text(script_type),
{
    match script_type {
        ScriptType::Inline => "inline",
        ScriptType::Url => "url",
    }
}

/// Copies every entry out of the registry, in the order of `entries()`, so
/// that the registry can be let go before anything is executed.
pub fn snapshot(registry: &ScriptRegistry) -> (scripts: Vec<ScriptEntry>)
    ensures
        entries_view(scripts@) == registry.entries(),
        ids_distinct(registry.entries()),
        registry@.dom().finite(),
        scripts@.len() == registry@.dom().len(),
{
    let all = registry.get_all();
    let mut scripts: Vec<ScriptEntry> = Vec::new();
    let mut i: usize = 0;
    while i < all.len()
        invariant
            i <= all@.len(),
            scripts@.len() == i,
            all@.len() == registry.entries().len(),
            forall|k: int| 0 <= k < all@.len() ==> (#[trigger] all@[k])@ == registry.entries()[k],
            forall|k: int| 0 <= k < i ==> (#[trigger] scripts@[k])@ == registry.entries()[k],
        decreases all@.len() - i,
    {
        scripts.push(all[i].clone());
        i += 1;
    }
    assert(entries_view(scripts@) =~= registry.entries());
    scripts
}

/// The members of the payload object for one entry: its id, the tag of its
/// type and its content, under the keys `id`, `type` and `content`.
fn payload_row(entry: &ScriptEntry) -> (row: Vec<(String, String)>)
    ensures
        row@.map_values(|pair: (String, String)| (pair.0@, pair.1@)) == entry_row(entry@),
{
    let mut row: Vec<(String, String)> = Vec::new();
    row.push(("id".to_owned(), entry.id.clone()));
    row.push(("type".to_owned(), type_tag(entry.script_type).to_owned()));
    row.push(("content".to_owned(), entry.content.clone()));
    assert(row@.map_values(|pair: (String, String)| (pair.0@, pair.1@)) =~= entry_row(entry@));
    row
}

/// What is sent for the outcome of writing the payload: the text that was
/// written, or the empty list where writing failed.
pub fn payload_or_empty(outcome: Result<String, serde_json::Error>) -> (payload: String)
    ensures
        payload@ == match outcome {
            Ok(text) => text@,
            Err(_) => empty_payload(),
        },
{
    match outcome {
        Ok(text) => text,
        Err(_) => "[]".to_owned(),
    }
}

/// Writes the payload for `scripts`: one JSON list that holds, for each
/// entry in order, an object with the members `id`, `type` and `content`.
pub fn injection_payload(scripts: &Vec<ScriptEntry>) -> (payload: String)
    ensures
        payload@ == json_objects_text(payload_rows(entries_view(scripts@))),
{
    let mut rows: Vec<Vec<(String, String)>> = Vec::new();
    let mut i: usize = 0;
    while i < scripts.len()
        invariant
            i <= scripts@.len(),
            rows@.len() == i,
            forall|k: int|
                0 <= k < i ==> (#[trigger] rows@[k])@.map_values(
                    |pair: (String, String)| (pair.0@, pair.1@),
                ) == entry_row(scripts@[k]@),
        decreases scripts@.len() - i,
    {
        rows.push(payload_row(&scripts[i]));
        i += 1;
    }
    assert(rows_view(rows@) =~= payload_rows(entries_view(scripts@)));
    payload_or_empty(objects_to_json(&rows))
}

/// Wraps a payload into the script that is executed in the page: a call of
/// the hook `window.__MCP_INJECT_SCRIPTS__` with the payload as its only
/// argument, guarded so that a page without the hook is left alone.
pub fn hook_call_script(payload: &str) -> (script: String)
    ensures
        script@ == guarded_hook_call(payload@),
{
    let mut script = "if (window.__MCP_INJECT_SCRIPTS__) { window.__MCP_INJECT_SCRIPTS__(".to_owned();
    script.append(payload);
    script.append("); }");
    script
}

/// What an injection reports back to the page.
#[derive(Debug)]
pub struct InjectionReport {
    /// How many scripts were handed to the page.
    pub injected: usize,
    /// The ids of those scripts, in the order of the payload.
    pub script_ids: Vec<String>,
    /// Set where nothing was injected, to say why.
    pub message: Option<String>,
}

/// Why an injection did not take place.
#[derive(Debug)]
pub enum InjectionError {
    /// The lock that guards the registry could not be taken; the cause is
    /// given.
    LockFailure(String),
    /// The web-view failed to execute the injection script; the cause is
    /// given.
    ExecutionFailure(String),
}

/// The text of an injection error.
pub open spec fn error_text(error: InjectionError) -> Seq<char> {
    match error {
        InjectionError::LockFailure(cause) => "Failed to lock registry: "@ + cause@,
        InjectionError::ExecutionFailure(cause) => "Failed to inject scripts: "@ + cause@,
    }
}

impl InjectionError {
    /// The error as the text that goes back to the page.
    pub fn message(&self) -> (text: String)
        ensures
            text@ == error_text(*self),
    {
        match self {
            InjectionError::LockFailure(cause) => {
                let mut text = "Failed to lock registry: ".to_owned();
                text.append(cause.as_str());
                text
            },
            InjectionError::ExecutionFailure(cause) => {
                let mut text = "Failed to inject scripts: ".to_owned();
                text.append(cause.as_str());
                text
            },
        }
    }
}

/// What is to be done for a page that asks for its scripts.
#[derive(Debug)]
pub enum InjectionStep {
    /// Nothing is registered: no script is executed, and this is the report.
    Skip(InjectionReport),
    /// `script` is to be executed in the page, as one call; `script_ids`
    /// are the ids it carries, for the report.
    Execute { script: String, script_ids: Vec<String> },
}

/// Whether `report` says that nothing is registered.
pub open spec fn reports_nothing(report: InjectionReport) -> bool {
    &&& report.injected == 0
    &&& report.script_ids@.len() == 0
    &&& report.message matches Some(text)
    &&& text@ == "No scripts registered"@
}

/// Whether `step` is what a page is owed when `entries` are registered:
/// with no entry nothing is executed and zero is reported; otherwise one
/// script calls the hook with the payload of all entries, and the ids are
/// those of the entries, each once, in order.
pub open spec fn step_for(entries: Seq<ScriptEntrySpec>, step: InjectionStep) -> bool {
    if entries.len() == 0 {
        step matches InjectionStep::Skip(report) && reports_nothing(report)
    } else {
        &&& step matches InjectionStep::Execute { script, script_ids }
        &&& strings_view(script_ids@) == entry_ids(entries)
        &&& script@ == guarded_hook_call(json_objects_text(payload_rows(entries)))
    }
}

/// The ids of `scripts`, in order.
fn script_ids_of(scripts: &Vec<ScriptEntry>) -> (ids: Vec<String>)
    ensures
        strings_view(ids@) == entry_ids(entries_view(scripts@)),
{
    let mut ids: Vec<String> = Vec::new();
    let mut i: usize = 0;
    while i < scripts.len()
        invariant
            i <= scripts@.len(),
            ids@.len() == i,
            forall|k: int| 0 <= k < i ==> (#[trigger] ids@[k])@ == scripts@[k].id@,
        decreases scripts@.len() - i,
    {
        ids.push(scripts[i].id.clone());
        i += 1;
    }
    assert(strings_view(ids@) =~= entry_ids(entries_view(scripts@)));
    ids
}

/// Decides what is to be done with a snapshot of the registry.
pub fn plan_injection(scripts: &Vec<ScriptEntry>) -> (step: InjectionStep)
    ensures
        step_for(entries_view(scripts@), step),
{
    if scripts.len() == 0 {
        InjectionStep::Skip(
            InjectionReport {
                injected: 0,
                script_ids: Vec::new(),
                message: Some("No scripts registered".to_owned()),
            },
        )
    } else {
        let payload = injection_payload(scripts);
        let script = hook_call_script(payload.as_str());
        InjectionStep::Execute { script, script_ids: script_ids_of(scripts) }
    }
}

/// Answers a page that asks for its scripts: takes a snapshot of the
/// registry and decides what is to be done with it. With an empty registry
/// nothing is executed. Otherwise the ids that will be reported are exactly
/// the registered ids, each once.
pub fn request_script_injection(registry: &ScriptRegistry) -> (step: InjectionStep)
    ensures
        step_for(registry.entries(), step),
        ids_distinct(registry.entries()),
        step is Skip <==> registry@ == Map::<Seq<char>, ScriptEntrySpec>::empty(),
        step matches InjectionStep::Execute { script_ids, .. } ==> {
            &&& registry@.dom().finite()
            &&& script_ids@.len() == registry@.dom().len()
            &&& strings_view(script_ids@).no_duplicates()
            &&& strings_view(script_ids@).to_set() == registry@.dom()
        },
{
    let scripts = snapshot(registry);
    let step = plan_injection(&scripts);
    proof {
        lemma_ids_are_keys(registry.entries());
        if registry.entries().len() == 0 {
            assert(registry@ =~= Map::<Seq<char>, ScriptEntrySpec>::empty());
        }
        if step is Execute {
            assert(strings_view(step->script_ids@).len() == step->script_ids@.len());
            assert(entry_ids(registry.entries()).len() == registry.entries().len());
        }
    }
    step
}

/// The ids of a list without repeated ids are the keys of the mapping it
/// stands for, each once.
pub proof fn lemma_ids_are_keys(entries: Seq<ScriptEntrySpec>)
    requires
        ids_distinct(entries),
    ensures
        entry_ids(entries).no_duplicates(),
        entry_ids(entries).to_set() == entries_map(entries).dom(),
{
    let ids = entry_ids(entries);
    assert forall|i: int, j: int| 0 <= i < ids.len() && 0 <= j < ids.len() && i != j implies ids[i]
        != ids[j] by {
        if i < j {
            assert(entries[i].id != entries[j].id);
        } else {
            assert(entries[j].id != entries[i].id);
        }
    }
    assert forall|id: Seq<char>| ids.to_set().contains(id) <==> entries_map(entries).dom().contains(
        id,
    ) by {
        if ids.to_set().contains(id) {
            let i = choose|i: int| 0 <= i < ids.len() && ids[i] == id;
            assert(entries[i].id == id);
        }
        if has_id(entries, id) {
            let i = position_of(entries, id);
            assert(ids[i] == id);
        }
    }
    assert(ids.to_set() =~= entries_map(entries).dom());
}

/// Whether `result` is what goes back to the page once the web-view has
/// answered `outcome` to the script that carried `script_ids`: the count
/// and the ids where the script was executed, the failure with its cause
/// where it was not.
pub open spec fn completion_of(
    script_ids: Vec<String>,
    outcome: Result<(), String>,
    result: Result<InjectionReport, InjectionError>,
) -> bool {
    match outcome {
        Ok(_) => {
            &&& result matches Ok(report)
            &&& report.injected == script_ids@.len()
            &&& report.script_ids == script_ids
            &&& report.message is None
        },
        Err(cause) => result == Err::<InjectionReport, InjectionError>(
            InjectionError::ExecutionFailure(cause),
        ),
    }
}

/// Turns what the web-view answered to the injection script into what goes
/// back to the page: the count and the ids where the script was executed,
/// the failure with its cause where it was not.
pub fn complete_injection(script_ids: Vec<String>, outcome: Result<(), String>) -> (result: Result<
    InjectionReport,
    InjectionError,
>)
    ensures
        completion_of(script_ids, outcome, result),
{
    match outcome {
        Ok(_) => Ok(InjectionReport { injected: script_ids.len(), script_ids, message: None }),
        Err(cause) => Err(InjectionError::ExecutionFailure(cause)),
    }
}

/// An injection of a registry with entries that the web-view executes
/// reports as many scripts as the registry holds, and the ids it reports are
/// exactly the registered ids, each once.
pub proof fn lemma_report_lists_registered_ids(
    entries: Seq<ScriptEntrySpec>,
    step: InjectionStep,
    result: Result<InjectionReport, InjectionError>,
)
    requires
        ids_distinct(entries),
        entries.len() > 0,
        step_for(entries, step),
        step is Execute ==> completion_of(step->script_ids, Ok(()), result),
    ensures
        step is Execute,
        result is Ok,
        entries_map(entries).dom().finite(),
        result->Ok_0.injected == entries_map(entries).dom().len(),
        strings_view(result->Ok_0.script_ids@).no_duplicates(),
        strings_view(result->Ok_0.script_ids@).to_set() == entries_map(entries).dom(),
{
    lemma_ids_are_keys(entries);
    lemma_distinct_ids_counted(entries);
    assert(strings_view(step->script_ids@).len() == step->script_ids@.len());
    assert(entry_ids(entries).len() == entries.len());
}

/// No script is executed for an empty registry, and the report says that
/// nothing was injected.
pub proof fn lemma_empty_registry_executes_nothing(step: InjectionStep)
    requires
        step_for(Seq::empty(), step),
    ensures
        step is Skip,
        step->Skip_0.injected == 0,
        step->Skip_0.script_ids@.len() == 0,
{
}

/// The payload and the report speak of the entries in one order: the object
/// at a position of the payload stands for the entry whose id is reported at
/// that position.
pub proof fn lemma_payload_and_ids_agree(entries: Seq<ScriptEntrySpec>, position: int)
    requires
        0 <= position < entries.len(),
    ensures
        payload_rows(entries).len() == entry_ids(entries).len(),
        payload_rows(entries)[position] == entry_row(entries[position]),
        payload_rows(entries)[position][0] == ("id"@, entry_ids(entries)[position]),
{
}

} // verus!
