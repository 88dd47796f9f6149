//! The files of a generated project, and the rules for putting them on disk.
//!
//! Nothing here touches a file system. A caller asks [`project_dir`] where a
//! project goes, and asks [`check_overwrite`] about each file just before it
//! writes it; a refusal ends the run, and files written before it stay.

use vstd::prelude::*;
use vstd::string::*;
use crate::agent::Agent;
use crate::error::{WriteError, WriteFailure};
use crate::templates::{
    AGENT_FILE,
    CLI_FILE,
    ENV_EXAMPLE,
    ENV_FILE,
    PY_CLI_TEMPLATE,
    REQUIREMENTS,
    REQUIREMENTS_FILE,
};
use crate::vocabulary::same_text;

verus! {

/// One file of a generated project: its name inside the project directory
/// and all of its content.
#[derive(Clone, Debug, PartialEq, Eq)]
pub struct OutputFile {
    pub name: String,
    pub content: String,
}

impl View for OutputFile {
    type V = (Seq<char>, Seq<char>);

    open spec fn view(&self) -> (Seq<char>, Seq<char>) {
        (self.name@, self.content@)
    }
}

/// Files as pairs of name and content.
pub open spec fn files_view(files: Seq<OutputFile>) -> Seq<(Seq<char>, Seq<char>)> {
    Seq::new(files.len(), |i: int| files[i]@)
}

/// The four files of a project whose agent definition is `agent_source`, in
/// the order in which they are made: the agent definition, the chat
/// front-end, the dependency manifest and the environment template. Only the
/// first depends on the description.
pub open spec fn project(agent_source: Seq<char>) -> Seq<(Seq<char>, Seq<char>)> {
    seq![
        (AGENT_FILE@, agent_source),
        (CLI_FILE@, PY_CLI_TEMPLATE@),
        (REQUIREMENTS_FILE@, REQUIREMENTS@),
        (ENV_FILE@, ENV_EXAMPLE@),
    ]
}

/// Files as a mapping from name to content; of two files with one name the
/// later one counts.
pub open spec fn as_map(files: Seq<(Seq<char>, Seq<char>)>) -> Map<Seq<char>, Seq<char>>
    decreases files.len(),
{
    if files.len() == 0 {
        Map::empty()
    } else {
        as_map(files.drop_last()).insert(files.last().0, files.last().1)
    }
}

/// Puts the rendered agent definition together with the three fixed files.
pub fn project_files(agent_source: String) -> (files: Vec<OutputFile>)
    ensures
        files_view(files@) == project(agent_source@),
{
    let mut files: Vec<OutputFile> = Vec::new();
    files.push(OutputFile { name: String::from_str(AGENT_FILE), content: agent_source });
    files.push(OutputFile { name: String::from_str(CLI_FILE), content: String::from_str(PY_CLI_TEMPLATE) });
    files.push(
        OutputFile {
            name: String::from_str(REQUIREMENTS_FILE),
            content: String::from_str(REQUIREMENTS),
        },
    );
    files.push(
        OutputFile { name: String::from_str(ENV_FILE), content: String::from_str(ENV_EXAMPLE) },
    );
    assert(files_view(files@) =~= project(agent_source@));
    files
}

/// Whether a character can stand in the name of a directory: anything but a
/// slash, a backslash and the NUL character.
pub open spec fn segment_char(c: char) -> bool {
    c != '/' && c != '\\' && c != '\0'
}

/// Whether `name` can be joined to a directory as one segment that leads
/// neither out of it nor deeper than one level: it is not empty, it is neither
/// `.` nor `..`, and it holds no slash, backslash or NUL.
pub open spec fn safe_segment(name: Seq<char>) -> bool {
    &&& name.len() > 0
    &&& name != "."@
    &&& name != ".."@
    &&& forall|i: int| 0 <= i < name.len() ==> segment_char(#[trigger] name[i])
}

/// Decides whether `name` is a safe path segment.
pub fn is_safe_segment(name: &str) -> (safe: bool)
    ensures
        safe == safe_segment(name@),
{
    if same_text(name, "") || same_text(name, ".") || same_text(name, "..") {
        proof {
            reveal_strlit("");
        }
        return false;
    }
    proof {
        reveal_strlit("");
        assert(name@.len() > 0) by {
            if name@.len() == 0 {
                assert(name@ =~= ""@);
            }
        }
    }
    for c in it: name.chars()
        invariant
            it.seq() == name@,
            forall|i: int| 0 <= i < it.index() ==> segment_char(#[trigger] name@[i]),
    {
        if c == '/' || c == '\\' || c == '\0' {
            assert(!segment_char(name@[it.index() as int]));
            return false;
        }
    }
    true
}

/// The name of the directory that the project of `agent` goes into, inside
/// whatever directory the caller writes to: the agent's name where that is a
/// safe path segment, and `UnsafeName` with the name where it is not.
pub fn project_dir(agent: &Agent) -> (r: Result<&str, WriteError>)
    ensures
        match r {
            Ok(dir) => safe_segment(agent@.name) && dir@ == agent@.name,
            Err(error) => !safe_segment(agent@.name) && error@ == WriteFailure::UnsafeName(
                agent@.name,
            ),
        },
{
    if is_safe_segment(agent.name.as_str()) {
        Ok(agent.name.as_str())
    } else {
        Err(WriteError::UnsafeName(agent.name.clone()))
    }
}

/// Decides whether the file at `path` may be written: yes where nothing is
/// there yet or where `force` is set, and `AlreadyExists` with the path
/// otherwise.
pub fn check_overwrite(path: &str, present: bool, force: bool) -> (r: Result<(), WriteError>)
    ensures
        (r is Ok) <==> (!present || force),
        r matches Err(error) ==> error@ == WriteFailure::AlreadyExists(path@),
{
    if present && !force {
        Err(WriteError::AlreadyExists(String::from_str(path)))
    } else {
        Ok(())
    }
}

/// The four files of a project have four different names, so that as a
/// mapping from name to content the project loses none of them.
pub proof fn lemma_project_names_differ(agent_source: Seq<char>)
    ensures
        forall|i: int, j: int|
            0 <= i < j < 4 ==> (#[trigger] project(agent_source)[i]).0 != (#[trigger] project(
                agent_source,
            )[j]).0,
        as_map(project(agent_source)).dom() =~= set![
            AGENT_FILE@,
            CLI_FILE@,
            REQUIREMENTS_FILE@,
            ENV_FILE@,
        ],
        as_map(project(agent_source))[AGENT_FILE@] == agent_source,
        as_map(project(agent_source))[CLI_FILE@] == PY_CLI_TEMPLATE@,
        as_map(project(agent_source))[REQUIREMENTS_FILE@] == REQUIREMENTS@,
        as_map(project(agent_source))[ENV_FILE@] == ENV_EXAMPLE@,
{
    reveal_strlit("agent.py");
    reveal_strlit("cli.py");
    reveal_strlit("requirements.txt");
    reveal_strlit(".env.example");
    let files = project(agent_source);
    assert(AGENT_FILE@.len() == 8 && CLI_FILE@.len() == 6 && REQUIREMENTS_FILE@.len() == 16
        && ENV_FILE@.len() == 12);
    let three = files.drop_last();
    let two = three.drop_last();
    let one = two.drop_last();
    let none = one.drop_last();
    assert(none.len() == 0);
    assert(as_map(none) == Map::<Seq<char>, Seq<char>>::empty());
    assert(one.last() == files[0] && two.last() == files[1] && three.last() == files[2]
        && files.last() == files[3]);
    assert(as_map(one) == Map::<Seq<char>, Seq<char>>::empty().insert(files[0].0, files[0].1));
    assert(as_map(two) == as_map(one).insert(files[1].0, files[1].1));
    assert(as_map(three) == as_map(two).insert(files[2].0, files[2].1));
    assert(as_map(files) == as_map(three).insert(files[3].0, files[3].1));
}

} // verus!
