//! The branch guard, the run of commands that stages a release, and the
//! repository identity read from the remote URL.

use vstd::prelude::*;
use vstd::string::*;

use crate::error::ReleaseError;
use crate::text::{chars_of, ends_with, find_first, find_last, same_text, trim, trimmed};

verus! {

/// One command of the release, with the message that reports its failure.
#[derive(Debug, Clone, PartialEq, Eq)]
pub struct Step {
    pub command: String,
    pub error_message: String,
}

/// The mathematical value of a [`Step`].
pub struct StepView {
    pub command: Seq<char>,
    pub error_message: Seq<char>,
}

impl View for Step {
    type V = StepView;

    open spec fn view(&self) -> StepView {
        StepView { command: self.command@, error_message: self.error_message@ }
    }
}

/// A release under way: the commands that stage it and how many of them
/// have succeeded so far. The commands run in order, and a failure ends the
/// release: [`ReleaseRun::record`] then gives no state to go on from.
#[derive(Debug)]
pub struct ReleaseRun {
    steps: Vec<Step>,
    done: usize,
}

/// The mathematical value of a [`ReleaseRun`].
pub struct RunView {
    pub steps: Seq<StepView>,
    pub done: nat,
}

impl View for ReleaseRun {
    type V = RunView;

    closed spec fn view(&self) -> RunView {
        RunView { steps: self.steps@.map_values(|s: Step| s@), done: self.done as nat }
    }
}

impl RunView {
    /// The command that is run next, where one is left.
    pub open spec fn pending(self) -> Option<StepView> {
        if self.done < self.steps.len() {
            Some(self.steps[self.done as int])
        } else {
            None
        }
    }

    /// This run with one more command done.
    pub open spec fn advanced(self) -> RunView {
        RunView { steps: self.steps, done: self.done + 1 }
    }
}

/// Whether releases may start from the branch `name`.
pub open spec fn is_trunk(name: Seq<char>) -> bool {
    name == "main"@ || name == "master"@
}

/// The branch on which the version `version` is staged.
pub open spec fn release_branch(version: Seq<char>) -> Seq<char> {
    "release-"@ + version
}

/// The commands that stage `version`, in the order in which they run:
/// pull the origin branch, create the release branch, build, stage, commit,
/// push, return to the origin branch, delete the local release branch.
pub open spec fn release_steps(version: Seq<char>, origin_branch: Seq<char>) -> Seq<StepView> {
    seq![
        StepView {
            command: "git pull origin "@ + origin_branch,
            error_message: "Failed to pull branch: "@ + origin_branch + "!"@,
        },
        StepView {
            command: "git checkout -b "@ + release_branch(version),
            error_message: "Failed to crate branch: "@ + release_branch(version)
                + "! Maybe it already exists?"@,
        },
        StepView { command: "cargo build"@, error_message: "Failed to compile the project!"@ },
        StepView { command: "git add -A"@, error_message: "Failed to execute git add"@ },
        StepView {
            command: "git commit -m \"v"@ + version + "\""@,
            error_message: "Failed to create commit"@,
        },
        StepView {
            command: "git push origin "@ + release_branch(version),
            error_message: "Failed to push branch: "@ + release_branch(version),
        },
        StepView {
            command: "git checkout "@ + origin_branch,
            error_message: "Failed to checkout: "@ + origin_branch,
        },
        StepView {
            command: "git branch -D "@ + release_branch(version),
            error_message: "Failed to delete local release branch: "@ + release_branch(version),
        },
    ]
}

/// The owner and the name that `url` gives: the name stands between the
/// last `/` and a closing `.git`, the owner between the first `:` and the
/// last `/`. Nothing where `url` lacks one of the three or the `:` comes
/// after the last `/`.
pub open spec fn repository_identity(url: Seq<char>) -> Option<(Seq<char>, Seq<char>)> {
    match (url.index_of_first(':'), url.index_of_last('/')) {
        (Some(colon), Some(slash)) => {
            let tail = url.subrange(slash + 1, url.len() as int);
            if colon < slash && ".git"@.is_suffix_of(tail) {
                Some((url.subrange(colon + 1, slash), tail.subrange(0, tail.len() - ".git"@.len())))
            } else {
                None
            }
        },
        _ => None,
    }
}

/// The address at which the release branch of `version` is compared and
/// proposed for merging.
pub open spec fn pull_request_address(owner: Seq<char>, name: Seq<char>, version: Seq<char>) -> Seq<
    char,
> {
    "https://github.com/"@ + owner + "/"@ + name + "/compare/"@ + release_branch(version)
        + "?expand=1"@
}

/// Accepts exactly `main` and `master`; every other name is a branch error.
pub fn accept_branch(name: &str) -> (r: Result<String, ReleaseError>)
    ensures
        match r {
            Ok(branch) => is_trunk(name@) && branch@ == name@,
            Err(e) => e == ReleaseError::Branch && !is_trunk(name@),
        },
{
    if same_text(name, "main") {
        Ok(String::from_str("main"))
    } else if same_text(name, "master") {
        Ok(String::from_str("master"))
    } else {
        Err(ReleaseError::Branch)
    }
}

/// The branch guard. `current_branch` is what the version-control tool
/// answers when asked for the checked-out branch; whitespace around the name
/// is ignored.
pub fn check_if_on_correct_branch(current_branch: &str) -> (r: Result<String, ReleaseError>)
    ensures
        match r {
            Ok(branch) => is_trunk(trimmed(current_branch@)) && branch@ == trimmed(
                current_branch@,
            ),
            Err(e) => e == ReleaseError::Branch && !is_trunk(trimmed(current_branch@)),
        },
{
    accept_branch(trim(current_branch))
}

/// `head` followed by `tail`.
fn join(head: &str, tail: &str) -> (r: String)
    ensures
        r@ == head@ + tail@,
{
    String::from_str(head).concat(tail)
}

/// A step from its two texts.
fn step(command: String, error_message: String) -> (r: Step)
    ensures
        r@ == (StepView { command: command@, error_message: error_message@ }),
{
    Step { command, error_message }
}

/// The commands that stage `version`, starting from and returning to
/// `origin_branch`.
fn plan(version: &str, origin_branch: &str) -> (steps: Vec<Step>)
    ensures
        steps@.map_values(|s: Step| s@) == release_steps(version@, origin_branch@),
{
    let branch_name: String = join("release-", version);
    let branch: &str = branch_name.as_str();
    let mut steps: Vec<Step> = Vec::new();
    steps.push(
        step(
            join("git pull origin ", origin_branch),
            join("Failed to pull branch: ", origin_branch).concat("!"),
        ),
    );
    steps.push(
        step(
            join("git checkout -b ", branch),
            join("Failed to crate branch: ", branch).concat("! Maybe it already exists?"),
        ),
    );
    steps.push(
        step(String::from_str("cargo build"), String::from_str("Failed to compile the project!")),
    );
    steps.push(step(String::from_str("git add -A"), String::from_str("Failed to execute git add")));
    steps.push(
        step(
            join("git commit -m \"v", version).concat("\""),
            String::from_str("Failed to create commit"),
        ),
    );
    steps.push(step(join("git push origin ", branch), join("Failed to push branch: ", branch)));
    steps.push(
        step(join("git checkout ", origin_branch), join("Failed to checkout: ", origin_branch)),
    );
    steps.push(
        step(
            join("git branch -D ", branch),
            join("Failed to delete local release branch: ", branch),
        ),
    );
    assert(steps@.map_values(|s: Step| s@) =~= release_steps(version@, origin_branch@));
    steps
}

/// Starts the release of `version` from `origin_branch`: the run holds the
/// commands of [`release_steps`], none of them done. The caller runs the
/// pending command, records how it ended, and goes on until nothing is
/// pending or a command has failed.
pub fn commit_version_change(version: &str, origin_branch: &str) -> (run: ReleaseRun)
    ensures
        run@.steps == release_steps(version@, origin_branch@),
        run@.done == 0,
{
    ReleaseRun { steps: plan(version, origin_branch), done: 0 }
}

impl Step {
    /// Judges how this step ended. `exit_code` is the exit status of the
    /// command, or nothing where it ended without one. Only the status zero
    /// lets the release go on; every other outcome is an error that carries
    /// the message of the step.
    pub fn check(&self, exit_code: Option<i32>) -> (r: Result<(), ReleaseError>)
        ensures
            match r {
                Ok(_) => exit_code == Some(0i32),
                Err(e) => {
                    &&& exit_code != Some(0i32)
                    &&& e matches ReleaseError::ExternalCommand { message }
                    &&& message@ == self.error_message@
                },
            },
    {
        match exit_code {
            Some(code) => {
                if code == 0 {
                    return Ok(());
                }
            },
            None => {},
        }
        Err(ReleaseError::ExternalCommand { message: self.error_message.clone() })
    }
}

impl ReleaseRun {
    #[verifier::type_invariant]
    spec fn done_within_steps(self) -> bool {
        self.done <= self.steps.len()
    }

    /// The commands of this run, in the order in which they run.
    pub fn steps(&self) -> (r: &Vec<Step>)
        ensures
            r@.map_values(|s: Step| s@) == self@.steps,
    {
        &self.steps
    }

    /// How many commands have succeeded: never more than the run holds.
    pub fn done(&self) -> (r: usize)
        ensures
            r == self@.done,
            r <= self@.steps.len(),
    {
        proof {
            use_type_invariant(self);
        }
        self.done
    }

    /// The command to run next, or nothing once every command has
    /// succeeded.
    pub fn pending(&self) -> (r: Option<&Step>)
        ensures
            match r {
                Some(step) => self@.pending() == Some(step@),
                None => self@.pending() is None && self@.done == self@.steps.len(),
            },
    {
        proof {
            use_type_invariant(self);
        }
        if self.done < self.steps.len() {
            Some(&self.steps[self.done])
        } else {
            None
        }
    }

    /// Records how the pending command ended. With the exit status zero the
    /// run moves on to the next command. Any other outcome ends the release
    /// with the message of the command that failed. Where nothing is
    /// pending, the run stays as it is.
    pub fn record(self, exit_code: Option<i32>) -> (r: Result<ReleaseRun, ReleaseError>)
        ensures
            match self@.pending() {
                Some(step) => if exit_code == Some(0i32) {
                    r matches Ok(next) && next@ == self@.advanced()
                } else {
                    &&& r matches Err(ReleaseError::ExternalCommand { message })
                    &&& message@ == step.error_message
                },
                None => r matches Ok(next) && next@ == self@,
            },
    {
        proof {
            use_type_invariant(&self);
        }
        if self.done < self.steps.len() {
            match self.steps[self.done].check(exit_code) {
                Ok(()) => Ok(ReleaseRun { steps: self.steps, done: self.done + 1 }),
                Err(e) => Err(e),
            }
        } else {
            Ok(self)
        }
    }
}

/// Reads the owner and the name of the repository from a remote URL such as
/// `git@github.com:owner/name.git`.
pub fn parse_remote_url(url: &str) -> (r: Result<(String, String), ReleaseError>)
    ensures
        match r {
            Ok((owner, name)) => repository_identity(url@) == Some((owner@, name@)),
            Err(e) => e == ReleaseError::RemoteUrlParse && repository_identity(url@) is None,
        },
{
    let chars: Vec<char> = chars_of(url);
    let suffix: Vec<char> = chars_of(".git");
    let slash: usize = match find_last(&chars, '/') {
        Some(i) => i,
        None => { return Err(ReleaseError::RemoteUrlParse); },
    };
    let colon: usize = match find_first(&chars, ':') {
        Some(i) => i,
        None => { return Err(ReleaseError::RemoteUrlParse); },
    };
    proof {
        url@.index_of_last_ensures('/');
        url@.index_of_first_ensures(':');
    }
    if colon > slash {
        return Err(ReleaseError::RemoteUrlParse);
    }
    let n: usize = chars.len();
    let tail: &str = url.substring_char(slash + 1, n);
    let tail_chars: Vec<char> = chars_of(tail);
    if !ends_with(&tail_chars, &suffix) {
        return Err(ReleaseError::RemoteUrlParse);
    }
    let owner: &str = url.substring_char(colon + 1, slash);
    let name: &str = tail.substring_char(0, tail_chars.len() - suffix.len());
    Ok((String::from_str(owner), String::from_str(name)))
}

/// Reads the owner and the name of the repository from what the
/// version-control tool answers when asked for the URL of the remote;
/// whitespace around the URL is ignored.
pub fn get_repo_name(origin_url: &str) -> (r: Result<(String, String), ReleaseError>)
    ensures
        match r {
            Ok((owner, name)) => repository_identity(trimmed(origin_url@)) == Some(
                (owner@, name@),
            ),
            Err(e) => e == ReleaseError::RemoteUrlParse && repository_identity(
                trimmed(origin_url@),
            ) is None,
        },
{
    parse_remote_url(trim(origin_url))
}

/// The address at which the operator opens the pull request for `version`.
pub fn pull_request_url(owner: &str, name: &str, version: &str) -> (r: String)
    ensures
        r@ == pull_request_address(owner@, name@, version@),
{
    let mut url: String = String::from_str("https://github.com/");
    url.append(owner);
    url.append("/");
    url.append(name);
    url.append("/compare/");
    url.append(join("release-", version).as_str());
    url.append("?expand=1");
    url
}

} // verus!
