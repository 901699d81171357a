//! Sessions of the coding assistant, one for each project in whose
//! directory it was launched, the registry that keeps them, and the
//! commands with which the assistant and other tools are started.

use vstd::prelude::*;
use vstd::string::StringExecFns;
use crate::chars::{replace_all, replaced_all, text_of, to_chars};
use crate::commands::projects::{final_component, is_component_of};
use crate::sequences::{
    first_where, lemma_first_where, lemma_first_where_is, lemma_first_where_none, views,
};
use crate::text::{opt_text, texts};

verus! {

/// The mathematical view of a [`SessionInfo`].
pub struct SessionInfoView {
    pub project_path: Seq<char>,
    pub status: Seq<char>,
    pub pid: Option<u32>,
}

/// A session of the coding assistant in a project. `status` is one of
/// `running`, `idle` and `not_started`.
#[derive(Debug, PartialEq, Eq)]
pub struct SessionInfo {
    pub project_path: String,
    pub status: String,
    pub pid: Option<u32>,
}

impl View for SessionInfo {
    type V = SessionInfoView;

    open spec fn view(&self) -> SessionInfoView {
        SessionInfoView { project_path: self.project_path@, status: self.status@, pid: self.pid }
    }
}

impl Clone for SessionInfo {
    fn clone(&self) -> (r: Self)
        ensures
            r@ == self@,
    {
        SessionInfo {
            project_path: self.project_path.clone(),
            status: self.status.clone(),
            pid: self.pid,
        }
    }
}

impl SessionInfo {
    /// A running session in the given project.
    pub fn new(project_path: String, pid: Option<u32>) -> (r: Self)
        ensures
            r@ == (SessionInfoView { project_path: project_path@, status: "running"@, pid }),
    {
        SessionInfo { project_path, status: String::from_str("running"), pid }
    }

    /// What is reported of a project without a session.
    pub fn not_started(project_path: String) -> (r: Self)
        ensures
            r@ == (SessionInfoView {
                project_path: project_path@,
                status: "not_started"@,
                pid: None,
            }),
    {
        SessionInfo { project_path, status: String::from_str("not_started"), pid: None }
    }
}

/// The sessions in the project of the given path.
pub open spec fn in_project(path: Seq<char>) -> spec_fn(SessionInfoView) -> bool {
    |s: SessionInfoView| s.project_path == path
}

/// The sessions in other projects than the one of the given path.
pub open spec fn in_other_project(path: Seq<char>) -> spec_fn(SessionInfoView) -> bool {
    |s: SessionInfoView| s.project_path != path
}

/// Whether no two of the sessions are in one project.
pub open spec fn one_per_project(sessions: Seq<SessionInfoView>) -> bool {
    forall|i: int, j: int|
        0 <= i < j < sessions.len() ==> (#[trigger] sessions[i]).project_path != (
        #[trigger] sessions[j]).project_path
}

/// The session in the project of the given path, if there is one.
pub open spec fn session_in(sessions: Seq<SessionInfoView>, path: Seq<char>) -> Option<
    SessionInfoView,
> {
    match first_where(sessions, in_project(path)) {
        Some(i) => Some(sessions[i]),
        None => None,
    }
}

/// Sessions of which no two are in one project stay so when some of them
/// are taken away.
pub proof fn lemma_filter_keeps_one_per_project(
    sessions: Seq<SessionInfoView>,
    p: spec_fn(SessionInfoView) -> bool,
)
    requires
        one_per_project(sessions),
    ensures
        one_per_project(sessions.filter(p)),
    decreases sessions.len(),
{
    reveal(Seq::filter);
    if sessions.len() > 0 {
        let rest = sessions.drop_last();
        let last = sessions.last();
        lemma_filter_keeps_one_per_project(rest, p);
        let kept = rest.filter(p);
        if p(last) {
            assert forall|i: int, j: int| 0 <= i < j < kept.push(last).len() implies (
            #[trigger] kept.push(last)[i]).project_path != (
            #[trigger] kept.push(last)[j]).project_path by {
                if j == kept.len() {
                    rest.lemma_filter_contains_rev(p, kept[i]);
                }
            }
        }
    }
}

/// The sessions of the coding assistant, at most one for each project.
#[derive(Debug)]
pub struct SessionRegistry {
    sessions: Vec<SessionInfo>,
}

impl View for SessionRegistry {
    type V = Seq<SessionInfoView>;

    closed spec fn view(&self) -> Seq<SessionInfoView> {
        views(self.sessions@)
    }
}

impl SessionRegistry {
    /// What holds of every registry: it has at most one session for each
    /// project.
    #[verifier::type_invariant]
    pub closed spec fn one_session_per_project(&self) -> bool {
        one_per_project(views(self.sessions@))
    }

    /// The registry without sessions.
    pub fn new() -> (r: Self)
        ensures
            r@ == Seq::<SessionInfoView>::empty(),
            one_per_project(r@),
    {
        let r = SessionRegistry { sessions: Vec::new() };
        r
    }

    /// Whether the project of the given path has a session.
    pub fn contains_key(&self, project_path: &String) -> (r: bool)
        ensures
            r == session_in(self@, project_path@) is Some,
    {
        self.position(project_path).is_some()
    }

    /// A copy of the session in the project of the given path, if it has one.
    pub fn get(&self, project_path: &String) -> (r: Option<SessionInfo>)
        ensures
            match session_in(self@, project_path@) {
                Some(s) => r matches Some(x) && x@ == s,
                None => r is None,
            },
    {
        match self.position(project_path) {
            Some(i) => Some(self.sessions[i].clone()),
            None => None,
        }
    }

    /// How many sessions the registry holds.
    pub fn len(&self) -> (r: usize)
        ensures
            r == self@.len(),
    {
        self.sessions.len()
    }

    /// The index of the session in the project of the given path.
    fn position(&self, project_path: &String) -> (r: Option<usize>)
        ensures
            match r {
                Some(i) => i < self@.len() && first_where(self@, in_project(project_path@)) == Some(
                    i as int,
                ),
                None => first_where(self@, in_project(project_path@)) is None,
            },
    {
        let mut i: usize = 0;
        while i < self.sessions.len()
            invariant
                i <= self.sessions.len(),
                forall|j: int| 0 <= j < i ==> !in_project(project_path@)(#[trigger] self@[j]),
            decreases self.sessions.len() - i,
        {
            if self.sessions[i].project_path == *project_path {
                proof {
                    lemma_first_where_is(self@, in_project(project_path@), i as int);
                }
                return Some(i);
            }
            i += 1;
        }
        proof {
            lemma_first_where_none(self@, in_project(project_path@));
        }
        None
    }

    /// Takes the sessions of the project of the given path out of a list.
    fn without(sessions: Vec<SessionInfo>, project_path: &String) -> (r: Vec<SessionInfo>)
        ensures
            views(r@) == views(sessions@).filter(in_other_project(project_path@)),
    {
        let ghost before = views(sessions@);
        let ghost keep = in_other_project(project_path@);
        let mut kept: Vec<SessionInfo> = Vec::new();
        for session in it: sessions
            invariant
                before == views(it.seq()),
                keep == in_other_project(project_path@),
                views(kept@) == before.take(it.index()).filter(keep),
        {
            proof {
                let n = it.index();
                assert(before.take(n + 1) =~= before.take(n).push(session@));
                before.take(n).lemma_filter_push(session@, keep);
            }
            if session.project_path != *project_path {
                kept.push(session);
            }
        }
        proof {
            assert(before.take(before.len() as int) =~= before);
        }
        kept
    }

    /// Takes the session of the project of the given path out of the
    /// registry. The sessions of other projects stay.
    pub fn remove(&mut self, project_path: &String)
        ensures
            final(self)@ == old(self)@.filter(in_other_project(project_path@)),
            session_in(final(self)@, project_path@) is None,
            one_per_project(final(self)@),
    {
        proof {
            use_type_invariant(&*self);
            lemma_filter_keeps_one_per_project(self@, in_other_project(project_path@));
            lemma_first_where(
                self@.filter(in_other_project(project_path@)),
                in_project(project_path@),
            );
        }
        let mut all: Vec<SessionInfo> = Vec::new();
        core::mem::swap(&mut self.sessions, &mut all);
        self.sessions = Self::without(all, project_path);
    }

    /// Puts a session into the registry, in place of the one that its
    /// project had, if it had one. The sessions of other projects stay.
    pub fn insert(&mut self, session: SessionInfo)
        ensures
            final(self)@ == old(self)@.filter(in_other_project(session@.project_path)).push(
                session@,
            ),
            session_in(final(self)@, session@.project_path) == Some(session@),
            one_per_project(final(self)@),
    {
        let ghost kept = self@.filter(in_other_project(session@.project_path));
        proof {
            use_type_invariant(&*self);
            lemma_filter_keeps_one_per_project(self@, in_other_project(session@.project_path));
            lemma_first_where_is(
                kept.push(session@),
                in_project(session@.project_path),
                kept.len() as int,
            );
        }
        let mut all: Vec<SessionInfo> = Vec::new();
        core::mem::swap(&mut self.sessions, &mut all);
        let mut next = Self::without(all, &session.project_path);
        proof {
            assert(views(next@.push(session)) =~= views(next@).push(session@));
        }
        next.push(session);
        self.sessions = next;
    }
}

/// What is reported of a project without a session.
pub open spec fn not_started_in(path: Seq<char>) -> SessionInfoView {
    SessionInfoView { project_path: path, status: "not_started"@, pid: None }
}

/// Registers the session that starts when the coding assistant is
/// launched in a project: a running session without a process id, in place
/// of any session that the project had.
pub fn register_launch(registry: &mut SessionRegistry, project_path: String)
    ensures
        session_in(final(registry)@, project_path@) == Some(
            SessionInfoView { project_path: project_path@, status: "running"@, pid: None },
        ),
        final(registry)@ == old(registry)@.filter(in_other_project(project_path@)).push(
            SessionInfoView { project_path: project_path@, status: "running"@, pid: None },
        ),
{
    registry.insert(SessionInfo::new(project_path, None));
}

/// Reports the session of a project. `window_open` says whether the window
/// of the session was found, where the platform can tell. A project without
/// a session is reported as not started. So is a project whose window was
/// looked for and not found, and its session leaves the registry. Else the
/// session is reported as it is registered.
pub fn get_session_status(
    registry: &mut SessionRegistry,
    project_path: String,
    window_open: Option<bool>,
) -> (r: SessionInfo)
    ensures
        match session_in(old(registry)@, project_path@) {
            None => r@ == not_started_in(project_path@) && final(registry)@ == old(registry)@,
            Some(session) => if window_open == Some(false) {
                r@ == not_started_in(project_path@) && final(registry)@ == old(registry)@.filter(
                    in_other_project(project_path@),
                )
            } else {
                r@ == session && final(registry)@ == old(registry)@
            },
        },
{
    match registry.get(&project_path) {
        None => SessionInfo::not_started(project_path),
        Some(session) => match window_open {
            Some(false) => {
                registry.remove(&project_path);
                SessionInfo::not_started(project_path)
            },
            _ => session,
        },
    }
}

/// The title of the window in which the coding assistant of the given
/// product name runs for a project whose path has the given last component.
pub open spec fn title_for(product: Seq<char>, component: Option<Seq<char>>) -> Seq<char> {
    product + " - "@ + match component {
        Some(name) => name,
        None => "Project"@,
    }
}

/// Makes the title of the window of a project from the last component of
/// its path.
pub fn window_title_from(product: &str, component: Option<String>) -> (r: String)
    ensures
        r@ == title_for(product@, opt_text(component)),
{
    match component {
        Some(name) => String::from_str(product).concat(" - ").concat(name.as_str()),
        None => String::from_str(product).concat(" - ").concat("Project"),
    }
}

/// The title of the window in which the coding assistant of the given
/// product name runs for the project at a path.
///
/// Which part of a path is its last component is for the platform to say,
/// so the contract holds for whatever it says: the title names `Project`
/// or a component of the path.
pub fn window_title(product: &str, project_path: &str) -> (r: String)
    ensures
        r@ == title_for(product@, None) || exists|name: Seq<char>|
            is_component_of(name, project_path@) && r@ == #[trigger] title_for(
                product@,
                Some(name),
            ),
{
    let component = final_component(project_path);
    let r = window_title_from(product, component);
    r
}

/// What is reported where the window of the coding assistant of the given
/// name is not found.
pub fn window_not_found_message(assistant: &str, window_title: &str) -> (r: String)
    ensures
        r@ == assistant@ + " terminal window '"@ + window_title@
            + "' not found. It may have been closed."@,
{
    String::from_str(assistant).concat(" terminal window '").concat(window_title).concat(
        "' not found. It may have been closed.",
    )
}

/// A text between single quotes of a shell: every single quote in it ends
/// the quoted text, stands escaped, and opens the quoted text again.
pub open spec fn shell_quoted(text: Seq<char>) -> Seq<char> {
    replaced_all(text, "'"@, "'\\''"@)
}

/// The shell command that starts the coding assistant in a project, by
/// the command of the assistant and with the prompt as its argument where
/// there is one, and leaves a shell open behind it.
pub open spec fn launch_command(
    command: Seq<char>,
    project_path: Seq<char>,
    prompt: Seq<char>,
) -> Seq<char> {
    if prompt.len() > 0 {
        "cd '"@ + project_path + "' && "@ + command + " '"@ + shell_quoted(prompt)
            + "'; exec bash"@
    } else {
        "cd '"@ + project_path + "' && "@ + command + "; exec bash"@
    }
}

/// Makes the shell command that starts the coding assistant in a project.
pub fn assistant_shell_command(command: &str, project_path: &str, prompt: &str) -> (r: String)
    ensures
        r@ == launch_command(command@, project_path@, prompt@),
{
    if !prompt.is_empty() {
        let escaped = text_of(&replace_all(&to_chars(prompt), &to_chars("'"), &to_chars("'\\''")));
        String::from_str("cd '").concat(project_path).concat("' && ").concat(command).concat(
            " '",
        ).concat(escaped.as_str()).concat("'; exec bash")
    } else {
        String::from_str("cd '").concat(project_path).concat("' && ").concat(command).concat(
            "; exec bash",
        )
    }
}

/// The batch script that starts the coding assistant in a project in a
/// window of the given title, by the command of the assistant, reading the
/// prompt from a file where there is one.
pub open spec fn launch_script(
    command: Seq<char>,
    window_title: Seq<char>,
    project_path: Seq<char>,
    prompt_file: Option<Seq<char>>,
) -> Seq<char> {
    "@echo off\ntitle "@ + window_title + "\ncd /d \""@ + project_path + "\"\n"@ + command + (
    match prompt_file {
        Some(file) => " \"@"@ + file + "\""@,
        None => Seq::empty(),
    }) + "\npause"@
}

/// Makes the batch script that starts the coding assistant in a project.
pub fn assistant_batch_script(
    command: &str,
    window_title: &str,
    project_path: &str,
    prompt_file: Option<&str>,
) -> (r: String)
    ensures
        r@ == launch_script(
            command@,
            window_title@,
            project_path@,
            match prompt_file {
                Some(f) => Some(f@),
                None => None,
            },
        ),
{
    let mut script = String::from_str("@echo off\ntitle ");
    script.append(window_title);
    script.append("\ncd /d \"");
    script.append(project_path);
    script.append("\"\n");
    script.append(command);
    match prompt_file {
        Some(file) => {
            script.append(" \"@");
            script.append(file);
            script.append("\"");
        },
        None => {},
    }
    script.append("\npause");
    script
}

/// The script that opens a terminal in the directory of a project.
pub fn terminal_script(project_path: &str) -> (r: String)
    ensures
        r@ == "tell application \"Terminal\" to do script \"cd '"@ + project_path@ + "'\""@,
{
    String::from_str("tell application \"Terminal\" to do script \"cd '").concat(
        project_path,
    ).concat("'\"")
}

/// The places in which the Git client is looked for, the likeliest first.
pub open spec fn fork_places(username: Seq<char>) -> Seq<Seq<char>> {
    seq![
        "C:\\Users\\"@ + username + "\\AppData\\Local\\Fork\\current\\Fork.exe"@,
        "C:\\Users\\"@ + username + "\\AppData\\Local\\Fork\\Fork.exe"@,
        "C:\\Program Files\\Fork\\Fork.exe"@,
        "C:\\Program Files (x86)\\Fork\\Fork.exe"@,
    ]
}

/// Lists the places in which the Git client is looked for.
pub fn fork_candidates(username: &str) -> (r: Vec<String>)
    ensures
        texts(r@) == fork_places(username@),
{
    let mut places: Vec<String> = Vec::new();
    places.push(
        String::from_str("C:\\Users\\").concat(username).concat(
            "\\AppData\\Local\\Fork\\current\\Fork.exe",
        ),
    );
    places.push(
        String::from_str("C:\\Users\\").concat(username).concat("\\AppData\\Local\\Fork\\Fork.exe"),
    );
    places.push(String::from_str("C:\\Program Files\\Fork\\Fork.exe"));
    places.push(String::from_str("C:\\Program Files (x86)\\Fork\\Fork.exe"));
    places
}

/// A line of the debug log: the time between square brackets, a space,
/// and the message.
pub fn log_line(timestamp: &str, message: &str) -> (r: String)
    ensures
        r@ == "["@ + timestamp@ + "] "@ + message@,
{
    String::from_str("[").concat(timestamp).concat("] ").concat(message)
}

/// A message of the user interface as the debug log records it.
pub fn frontend_message(message: &str) -> (r: String)
    ensures
        r@ == "[FRONTEND] "@ + message@,
{
    String::from_str("[FRONTEND] ").concat(message)
}

} // verus!
