//! Decisions of the worker supervisor. The caller performs each action (probe
//! the file system, open the log, spawn or kill the process) and reports back;
//! this module decides what to do and keeps the state: whether a worker runs,
//! and the one authentication token of this run.
use vstd::prelude::*;

use crate::text::{sanitize_path_for_node, sanitized_path};
use crate::vault::pairs_view;

verus! {

/// The port the worker listens on.
pub const LOCAL_API_PORT: &'static str = "46123";

/// The mode flag that tells the worker it runs under supervision.
pub const LOCAL_API_MODE: &'static str = "tauri-sidecar";

/// The platform the application runs on, as far as the supervisor cares.
#[derive(Debug, Clone, Copy, PartialEq, Eq, Structural)]
pub enum Platform {
    Windows,
    MacOs,
    Linux,
}

/// Why the worker could not be started, or its token not be read.
#[derive(Debug, Clone, Copy, PartialEq, Eq, Structural)]
pub enum SupervisorError {
    /// The worker script is not where the application expects it.
    WorkerScriptMissing,
    /// No runtime binary was found to run the worker with.
    WorkerBinaryMissing,
    /// No worker has been started yet, so there is no token.
    TokenNotGenerated,
}

/// What starting the worker proposes, before any process is spawned.
pub open spec fn start_decision(running: bool, script_exists: bool, binary_found: bool) -> Result<
    bool,
    SupervisorError,
> {
    if running {
        Ok(false)
    } else if !script_exists {
        Err(SupervisorError::WorkerScriptMissing)
    } else if !binary_found {
        Err(SupervisorError::WorkerBinaryMissing)
    } else {
        Ok(true)
    }
}

/// The token in force after a launch is prepared: the first one generated
/// stays for the whole run.
pub open spec fn token_after(token: Option<Seq<char>>, fresh: Seq<char>) -> Seq<char> {
    match token {
        Some(t) => t,
        None => fresh,
    }
}

/// The environment handed to the worker: port, resource root, mode, token,
/// then one entry per stored secret.
pub open spec fn worker_env(
    resource_root: Seq<char>,
    token: Seq<char>,
    secrets: Seq<(Seq<char>, Seq<char>)>,
) -> Seq<(Seq<char>, Seq<char>)> {
    seq![
        ("LOCAL_API_PORT"@, LOCAL_API_PORT@),
        ("LOCAL_API_RESOURCE_DIR"@, sanitized_path(resource_root)),
        ("LOCAL_API_MODE"@, LOCAL_API_MODE@),
        ("LOCAL_API_TOKEN"@, token),
    ] + secrets
}

/// How to launch the worker.
pub struct LaunchPlan {
    /// The runtime binary to run.
    pub program: String,
    /// The worker script, the one argument.
    pub script: String,
    /// The resource root as handed to the worker.
    pub resource_dir: String,
    /// The environment entries to set, in order.
    pub env: Vec<(String, String)>,
}

/// A program to run on one argument.
pub struct ShellCommand {
    pub program: String,
    pub arg: String,
}

/// The program that opens a file or folder with the desktop's default handler.
pub open spec fn shell_program(platform: Platform) -> Seq<char> {
    match platform {
        Platform::MacOs => "open"@,
        Platform::Windows => "explorer"@,
        Platform::Linux => "xdg-open"@,
    }
}

/// The command that shows `path` in the desktop's file manager or viewer.
pub fn open_path_in_shell(platform: Platform, path: &str) -> (r: ShellCommand)
    ensures
        r.program@ == shell_program(platform),
        r.arg@ == path@,
{
    let program = match platform {
        Platform::MacOs => "open",
        Platform::Windows => "explorer",
        Platform::Linux => "xdg-open",
    };
    ShellCommand { program: program.to_owned(), arg: path.to_owned() }
}

/// The file name of the runtime binary.
pub open spec fn node_binary_name(platform: Platform) -> Seq<char> {
    match platform {
        Platform::Windows => "node.exe"@,
        _ => "node"@,
    }
}

/// The file name of the runtime binary on `platform`.
pub fn node_binary_file(platform: Platform) -> (r: &'static str)
    ensures
        r@ == node_binary_name(platform),
{
    match platform {
        Platform::Windows => "node.exe",
        _ => "node",
    }
}

/// The well-known places where the runtime is installed.
pub open spec fn common_locations(platform: Platform) -> Seq<Seq<char>> {
    match platform {
        Platform::Windows => seq![
            "C:\\Program Files\\nodejs\\node.exe"@,
            "C:\\Program Files (x86)\\nodejs\\node.exe"@,
        ],
        _ => seq![
            "/opt/homebrew/bin/node"@,
            "/usr/local/bin/node"@,
            "/usr/bin/node"@,
            "/opt/local/bin/node"@,
        ],
    }
}

/// The places to look for the runtime binary, in order: the explicit
/// override, the bundled binary, each entry of the search path, then the
/// well-known installation places.
pub open spec fn binary_candidates(
    platform: Platform,
    explicit: Option<Seq<char>>,
    bundled: Option<Seq<char>>,
    search_path: Seq<Seq<char>>,
) -> Seq<Seq<char>> {
    (match explicit {
        Some(p) => seq![p],
        None => Seq::empty(),
    }) + (match bundled {
        Some(p) => seq![p],
        None => Seq::empty(),
    }) + search_path + common_locations(platform)
}

pub open spec fn opt_view(o: Option<String>) -> Option<Seq<char>> {
    match o {
        Some(s) => Some(s@),
        None => None,
    }
}

pub open spec fn strings_view(v: Seq<String>) -> Seq<Seq<char>> {
    v.map_values(|s: String| s@)
}

fn push_all(out: &mut Vec<String>, items: &Vec<String>)
    ensures
        strings_view(final(out)@) == strings_view(old(out)@) + strings_view(items@),
{
    let mut i: usize = 0;
    while i < items.len()
        invariant
            i <= items@.len(),
            strings_view(out@) == strings_view(old(out)@) + strings_view(items@.subrange(0, i as int)),
        decreases items@.len() - i,
    {
        let ghost before = out@;
        out.push(items[i].clone());
        assert(items@.subrange(0, i + 1) =~= items@.subrange(0, i as int).push(items@[i as int]));
        assert(strings_view(out@) =~= strings_view(before).push(items@[i as int]@));
        assert(strings_view(items@.subrange(0, i + 1)) =~= strings_view(
            items@.subrange(0, i as int),
        ).push(items@[i as int]@));
        i = i + 1;
    }
    assert(items@.subrange(0, items@.len() as int) =~= items@);
}

/// The places to look for the runtime binary, in search order. `search_path`
/// holds each search-path entry already joined with the binary's file name.
pub fn binary_search_order(
    platform: Platform,
    explicit: Option<String>,
    bundled: Option<String>,
    search_path: &Vec<String>,
) -> (r: Vec<String>)
    ensures
        strings_view(r@) == binary_candidates(
            platform,
            opt_view(explicit),
            opt_view(bundled),
            strings_view(search_path@),
        ),
{
    let mut r: Vec<String> = Vec::new();
    match explicit {
        Some(p) => r.push(p),
        None => {},
    }
    match bundled {
        Some(p) => r.push(p),
        None => {},
    }
    push_all(&mut r, search_path);
    let mut common: Vec<String> = Vec::new();
    match platform {
        Platform::Windows => {
            common.push("C:\\Program Files\\nodejs\\node.exe".to_owned());
            common.push("C:\\Program Files (x86)\\nodejs\\node.exe".to_owned());
        },
        _ => {
            common.push("/opt/homebrew/bin/node".to_owned());
            common.push("/usr/local/bin/node".to_owned());
            common.push("/usr/bin/node".to_owned());
            common.push("/opt/local/bin/node".to_owned());
        },
    }
    assert(strings_view(common@) =~= common_locations(platform));
    push_all(&mut r, &common);
    proof {
        let e = opt_view(explicit);
        let b = opt_view(bundled);
        assert(strings_view(r@) =~= binary_candidates(
            platform,
            e,
            b,
            strings_view(search_path@),
        ));
    }
    r
}

/// The first position whose candidate exists, if any.
pub fn first_existing(exists: &Vec<bool>) -> (r: Option<usize>)
    ensures
        match r {
            Some(i) => i < exists@.len() && exists@[i as int] && forall|j: int|
                0 <= j < i ==> !exists@[j],
            None => forall|j: int| 0 <= j < exists@.len() ==> !exists@[j],
        },
{
    let mut i: usize = 0;
    while i < exists.len()
        invariant
            i <= exists@.len(),
            forall|j: int| 0 <= j < i ==> !exists@[j],
        decreases exists@.len() - i,
    {
        if exists[i] {
            return Some(i);
        }
        i = i + 1;
    }
    None
}

/// Where the worker's resources live inside the bundled resource directory.
#[derive(Debug, Clone, Copy, PartialEq, Eq, Structural)]
pub enum ResourceRoot {
    /// The resource directory itself.
    Direct,
    /// Its `_up_` subdirectory, where bundlers lift files from outside the
    /// application's own tree.
    Lifted,
}

/// The resource root: the directory itself when it holds `api`, else its
/// `_up_` subdirectory when that holds `api`, else the directory itself.
pub fn choose_resource_root(direct_has_api: bool, lifted_has_api: bool) -> (r: ResourceRoot)
    ensures
        r == (if !direct_has_api && lifted_has_api {
            ResourceRoot::Lifted
        } else {
            ResourceRoot::Direct
        }),
{
    if direct_has_api {
        ResourceRoot::Direct
    } else if lifted_has_api {
        ResourceRoot::Lifted
    } else {
        ResourceRoot::Direct
    }
}

/// The supervisor's state: whether a worker runs, and the token of this run.
pub struct LocalApiState {
    running: bool,
    token: Option<String>,
}

impl LocalApiState {
    pub closed spec fn is_running(&self) -> bool {
        self.running
    }

    pub closed spec fn token(&self) -> Option<Seq<char>> {
        opt_view(self.token)
    }

    /// No worker, no token.
    pub fn new() -> (r: Self)
        ensures
            !r.is_running(),
            r.token() is None,
    {
        LocalApiState { running: false, token: None }
    }

    /// Whether a worker is recorded as running.
    pub fn running(&self) -> (r: bool)
        ensures
            r == self.is_running(),
    {
        self.running
    }

    /// Decides a start: `Ok(false)` when a worker already runs (nothing to
    /// do), `Ok(true)` when one should be launched, or why it cannot be.
    pub fn check_start(&self, script_exists: bool, binary_found: bool) -> (r: Result<
        bool,
        SupervisorError,
    >)
        ensures
            r == start_decision(self.is_running(), script_exists, binary_found),
    {
        if self.running {
            Ok(false)
        } else if !script_exists {
            Err(SupervisorError::WorkerScriptMissing)
        } else if !binary_found {
            Err(SupervisorError::WorkerBinaryMissing)
        } else {
            Ok(true)
        }
    }

    /// Fixes the token of this run (`fresh` is used only when none exists
    /// yet) and describes the launch: the sanitized script as the argument,
    /// and the environment of `worker_env`.
    pub fn prepare_launch(
        &mut self,
        fresh: String,
        program: String,
        script: &str,
        resource_root: &str,
        secrets: &Vec<(String, String)>,
    ) -> (r: LaunchPlan)
        ensures
            final(self).token() == Some(token_after(old(self).token(), fresh@)),
            final(self).is_running() == old(self).is_running(),
            r.program@ == program@,
            r.script@ == sanitized_path(script@),
            r.resource_dir@ == sanitized_path(resource_root@),
            pairs_view(r.env@) == worker_env(
                resource_root@,
                token_after(old(self).token(), fresh@),
                pairs_view(secrets@),
            ),
    {
        if self.token.is_none() {
            self.token = Some(fresh);
        }
        let token = match &self.token {
            Some(t) => t.clone(),
            None => String::new(),
        };
        let mut env: Vec<(String, String)> = Vec::new();
        env.push(("LOCAL_API_PORT".to_owned(), LOCAL_API_PORT.to_owned()));
        env.push(("LOCAL_API_RESOURCE_DIR".to_owned(), sanitize_path_for_node(resource_root)));
        env.push(("LOCAL_API_MODE".to_owned(), LOCAL_API_MODE.to_owned()));
        env.push(("LOCAL_API_TOKEN".to_owned(), token));
        let ghost head = env@;
        let mut i: usize = 0;
        while i < secrets.len()
            invariant
                i <= secrets@.len(),
                env@ == head + secrets@.subrange(0, i as int),
            decreases secrets@.len() - i,
        {
            let (k, v) = &secrets[i];
            env.push((k.clone(), v.clone()));
            assert(secrets@.subrange(0, i + 1) =~= secrets@.subrange(0, i as int).push(
                secrets@[i as int],
            ));
            i = i + 1;
        }
        proof {
            assert(secrets@.subrange(0, secrets@.len() as int) =~= secrets@);
            assert(pairs_view(env@) =~= worker_env(
                resource_root@,
                token_after(old(self).token(), fresh@),
                pairs_view(secrets@),
            ));
        }
        LaunchPlan {
            program,
            script: sanitize_path_for_node(script),
            resource_dir: sanitize_path_for_node(resource_root),
            env,
        }
    }

    /// Records that the worker was spawned.
    pub fn record_started(&mut self)
        ensures
            final(self).is_running(),
            final(self).token() == old(self).token(),
    {
        self.running = true;
    }

    /// Stops the worker: answers whether there was one to terminate, and
    /// forgets it either way. The token stays.
    pub fn stop(&mut self) -> (r: bool)
        ensures
            r == old(self).is_running(),
            !final(self).is_running(),
            final(self).token() == old(self).token(),
    {
        let was = self.running;
        self.running = false;
        was
    }

    /// The token of this run, once a launch has generated it.
    pub fn get_local_api_token(&self) -> (r: Result<String, SupervisorError>)
        ensures
            match self.token() {
                Some(t) => r matches Ok(s) && s@ == t,
                None => r == Err::<String, SupervisorError>(SupervisorError::TokenNotGenerated),
            },
    {
        match &self.token {
            Some(t) => Ok(t.clone()),
            None => Err(SupervisorError::TokenNotGenerated),
        }
    }
}

/// Starting twice in a row launches one worker: once a worker runs, a second
/// start decides to do nothing, and the token fixed by the first launch is
/// the one that stays.
pub proof fn lemma_second_start_is_noop(
    token: Option<Seq<char>>,
    first: Seq<char>,
    second: Seq<char>,
    script_exists: bool,
    binary_found: bool,
)
    ensures
        start_decision(true, script_exists, binary_found) == Ok::<bool, SupervisorError>(false),
        token_after(Some(token_after(token, first)), second) == token_after(token, first),
{
}

} // verus!
