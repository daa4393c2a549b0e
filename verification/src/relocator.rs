//! The artifact relocator: from where the deployer left its broadcast record
//! to where the archive keeps it.

use crate::files::{parent_dir, parent_of, run_step, run_steps, Files, FsStep, FsStepView};
use crate::interpreter::{extract_network_id, network_id};
use vstd::prelude::*;

verus! {

/// Where the deployer leaves the broadcast record of the script
/// `script_name` on the network `network_id`: below a `dry-run` directory
/// unless the run was broadcast.
pub open spec fn source_path(script_name: Seq<char>, network_id: Seq<char>, broadcast: bool) -> Seq<
    char,
> {
    "../broadcast/"@ + script_name + "/"@ + network_id + if broadcast {
        "/run-latest.json"@
    } else {
        "/dry-run/run-latest.json"@
    }
}

/// Where the archive keeps the broadcast record of `chain` for the project
/// version `version`.
pub open spec fn destination_path(version: Seq<char>, chain: Seq<char>) -> Seq<char> {
    "../../v2-deployments/protocol/v"@ + version + "/broadcasts/"@ + chain + ".json"@
}

/// A broadcast record to move: where it is and where it belongs.
#[derive(Clone, Debug, PartialEq, Eq)]
pub struct ArtifactMove {
    pub source: String,
    pub destination: String,
}

/// Why a broadcast record cannot be moved.
#[derive(Clone, Debug, PartialEq, Eq)]
pub enum MoveError {
    /// There is no file at the source path.
    SourceMissing { source: String, destination: String },
}

impl MoveError {
    /// The error in words, with the paths involved.
    pub fn message(&self) -> (text: String)
        ensures
            match self {
                MoveError::SourceMissing { source, destination } => text@
                    == "Failed to move "@ + source@ + " to "@ + destination@
                    + ": the source file does not exist"@,
            },
    {
        match self {
            MoveError::SourceMissing { source, destination } => {
                let mut text = String::from_str("Failed to move ");
                text.append(source.as_str());
                text.append(" to ");
                text.append(destination.as_str());
                text.append(": the source file does not exist");
                text
            },
        }
    }
}

/// What the field named `key` of a JSON document holds, where
/// `serde_json::from_str` reads the document as a `serde_json::Value`, the
/// value is an object with a member `key`, and that member is a string; else
/// `None`.
pub uninterp spec fn json_text_member(document: Seq<char>, key: Seq<char>) -> Option<Seq<char>>;

/// Parses `document` with `serde_json::from_str` into a `serde_json::Value`,
/// looks `key` up with `Value::get` and takes the text with `Value::as_str`.
/// The result is the document's `json_text_member` for the key: what a parse
/// yields is not modelled here.
#[verifier::external_body]
fn json_text(document: &str, key: &str) -> (text: Option<String>)
    ensures
        text.deep_view() == json_text_member(document@, key@),
{
    match serde_json::from_str::<serde_json::Value>(document) {
        Ok(value) => match value.get(key) {
            Some(member) => member.as_str().map(|text| text.to_string()),
            None => None,
        },
        Err(_) => None,
    }
}

/// The semantic version that the project's manifest declares: the text of
/// its `version` member, if it has one.
pub fn project_version(manifest: &str) -> (version: Option<String>)
    ensures
        version.deep_view() == json_text_member(manifest@, "version"@),
{
    json_text(manifest, "version")
}

/// The move that archives the broadcast record of one chain.
pub fn relocate(
    script_name: &str,
    chain: &str,
    network_id: &str,
    broadcast_mode: bool,
    version: &str,
) -> (planned: ArtifactMove)
    ensures
        planned.source@ == source_path(script_name@, network_id@, broadcast_mode),
        planned.destination@ == destination_path(version@, chain@),
{
    let mut source = String::from_str("../broadcast/");
    source.append(script_name);
    source.append("/");
    source.append(network_id);
    if broadcast_mode {
        source.append("/run-latest.json");
    } else {
        source.append("/dry-run/run-latest.json");
    }
    let mut destination = String::from_str("../../v2-deployments/protocol/v");
    destination.append(version);
    destination.append("/broadcasts/");
    destination.append(chain);
    destination.append(".json");
    ArtifactMove { source, destination }
}

/// The move that archives the broadcast record of `chain` after a run of the
/// script `script_name` that printed `output`: from the broadcast directory
/// of the network that the output names, to the archive of the version that
/// the project's manifest declares. `None` where the manifest declares no
/// version.
pub fn move_broadcast_file(
    script_name: &str,
    chain: &str,
    output: &str,
    is_broadcast_deployment: bool,
    manifest: &str,
) -> (planned: Option<ArtifactMove>)
    ensures
        match json_text_member(manifest@, "version"@) {
            Some(version) => planned matches Some(m) && m.source@ == source_path(
                script_name@,
                network_id(output@, script_name@),
                is_broadcast_deployment,
            ) && m.destination@ == destination_path(version, chain@),
            None => planned is None,
        },
{
    let chain_id = extract_network_id(output, script_name);
    match project_version(manifest) {
        Some(version) => Some(
            relocate(script_name, chain, chain_id.as_str(), is_broadcast_deployment, version.as_str()),
        ),
        None => None,
    }
}

/// The steps that carry out a move: the destination's directory is created
/// first where it is missing, then the file is moved.
pub open spec fn move_steps(
    source: Seq<char>,
    destination: Seq<char>,
    destination_dir_exists: bool,
) -> Seq<FsStepView> {
    let rename = FsStepView::Rename { from: source, to: destination };
    if destination_dir_exists {
        seq![rename]
    } else {
        seq![FsStepView::CreateDirAll { path: parent_dir(destination) }, rename]
    }
}

/// Plans the steps that carry out `planned`, given what is on disk: whether
/// the source file is there, and whether the destination's directory is.
/// Without the source file there is nothing to do but fail: no step is
/// planned, so nothing is written.
pub fn apply(planned: &ArtifactMove, source_exists: bool, destination_dir_exists: bool) -> (steps:
    Result<Vec<FsStep>, MoveError>)
    ensures
        match steps {
            Ok(todo) => source_exists && todo.deep_view() == move_steps(
                planned.source@,
                planned.destination@,
                destination_dir_exists,
            ),
            Err(MoveError::SourceMissing { source, destination }) => !source_exists && source@
                == planned.source@ && destination@ == planned.destination@,
        },
{
    if !source_exists {
        return Err(
            MoveError::SourceMissing {
                source: planned.source.clone(),
                destination: planned.destination.clone(),
            },
        );
    }
    let mut todo: Vec<FsStep> = Vec::new();
    if !destination_dir_exists {
        todo.push(FsStep::CreateDirAll { path: parent_of(planned.destination.as_str()) });
    }
    todo.push(FsStep::Rename { from: planned.source.clone(), to: planned.destination.clone() });
    assert(todo.deep_view() =~= move_steps(
        planned.source@,
        planned.destination@,
        destination_dir_exists,
    ));
    Ok(todo)
}

/// Carrying out a move where the source file is there brings its text to
/// the destination whole, takes it from the source, and leaves every other
/// file as it was.
pub proof fn lemma_move_carries_the_file(
    files: Files,
    source: Seq<char>,
    destination: Seq<char>,
    destination_dir_exists: bool,
)
    requires
        files.contains_key(source),
    ensures
        match run_steps(files, move_steps(source, destination, destination_dir_exists)) {
            Some(after) => {
                &&& after.contains_key(destination)
                &&& after[destination] == files[source]
                &&& source != destination ==> !after.contains_key(source)
                &&& forall|path: Seq<char>|
                    path != source && path != destination ==> (after.contains_key(path)
                        <==> files.contains_key(path)) && after[path] == files[path]
            },
            None => false,
        },
{
    let steps = move_steps(source, destination, destination_dir_exists);
    let moved = files.remove(source).insert(destination, files[source]);
    let rename = FsStepView::Rename { from: source, to: destination };
    assert(run_step(files, rename) == Some(moved));
    assert(run_steps(moved, Seq::<FsStepView>::empty()) == Some(moved));
    if destination_dir_exists {
        assert(steps.drop_first() =~= Seq::<FsStepView>::empty());
        assert(run_steps(files, steps) == Some(moved));
    } else {
        let rest = steps.drop_first();
        assert(rest =~= seq![rename]);
        assert(rest.drop_first() =~= Seq::<FsStepView>::empty());
        assert(run_steps(files, rest) == Some(moved));
        assert(run_step(files, steps[0]) == Some(files));
        assert(run_steps(files, steps) == Some(moved));
    }
}

} // verus!
