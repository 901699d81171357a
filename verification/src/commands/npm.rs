//! Finding out how the development server of a project is started, by a
//! script file in its directory or by a script of its package description,
//! and the commands that start it and stop the servers that are running.

use vstd::prelude::*;
use vstd::string::StringExecFns;
use crate::chars::{
    char_views, is_white_space, lines, lines_of, slice, text_of, to_chars, trim, trimmed, trimmed_end,
    white_space,
};
use crate::sequences::{first_where, lemma_first_where_is, lemma_first_where_none};
use crate::text::{lookup, opt_text, pair_views, texts, value_of};

verus! {

/// The ports on which development servers commonly listen.
pub const DEV_SERVER_PORTS: [u16; 8] = [3000, 5173, 8080, 4200, 5000, 8000, 1420, 5713];

/// The package description of a project, as far as it is read: its
/// scripts, each a name with a command. Of two scripts of one name the
/// first counts.
#[derive(Debug, PartialEq, Eq)]
pub struct PackageJson {
    pub scripts: Option<Vec<(String, String)>>,
}

impl View for PackageJson {
    type V = Option<Seq<(Seq<char>, Seq<char>)>>;

    open spec fn view(&self) -> Option<Seq<(Seq<char>, Seq<char>)>> {
        match self.scripts {
            Some(s) => Some(pair_views(s@)),
            None => None,
        }
    }
}

/// The mathematical view of [`AvailableScripts`].
pub struct AvailableScriptsView {
    pub has_dev: bool,
    pub has_build: bool,
    pub dev_script_name: Option<Seq<char>>,
    pub dev_script_type: Option<Seq<char>>,
    pub dev_command: Option<Seq<char>>,
    pub build_command: Option<Seq<char>>,
}

/// How a project is run and built. `dev_script_type` is `npm`, `bat` or
/// `sh`.
#[derive(Debug, PartialEq, Eq)]
pub struct AvailableScripts {
    pub has_dev: bool,
    pub has_build: bool,
    pub dev_script_name: Option<String>,
    pub dev_script_type: Option<String>,
    pub dev_command: Option<String>,
    pub build_command: Option<String>,
}

impl View for AvailableScripts {
    type V = AvailableScriptsView;

    open spec fn view(&self) -> AvailableScriptsView {
        AvailableScriptsView {
            has_dev: self.has_dev,
            has_build: self.has_build,
            dev_script_name: opt_text(self.dev_script_name),
            dev_script_type: opt_text(self.dev_script_type),
            dev_command: opt_text(self.dev_command),
            build_command: opt_text(self.build_command),
        }
    }
}

/// The names under which a batch file may start the development server,
/// the preferred one first.
pub open spec fn batch_names() -> Seq<Seq<char>> {
    seq!["dev.bat"@, "start.bat"@, "dev-server.bat"@, "start-dev.bat"@]
}

/// The names under which a shell script may start the development server,
/// the preferred one first.
pub open spec fn shell_names() -> Seq<Seq<char>> {
    seq!["dev.sh"@, "start.sh"@, "dev-server.sh"@, "start-dev.sh"@]
}

/// The names under which a batch file may start the development server,
/// the preferred one first.
pub fn dev_bat_files() -> (r: Vec<String>)
    ensures
        texts(r@) == batch_names(),
{
    let mut names: Vec<String> = Vec::new();
    names.push(String::from_str("dev.bat"));
    names.push(String::from_str("start.bat"));
    names.push(String::from_str("dev-server.bat"));
    names.push(String::from_str("start-dev.bat"));
    names
}

/// The names under which a shell script may start the development server,
/// the preferred one first.
pub fn dev_sh_files() -> (r: Vec<String>)
    ensures
        texts(r@) == shell_names(),
{
    let mut names: Vec<String> = Vec::new();
    names.push(String::from_str("dev.sh"));
    names.push(String::from_str("start.sh"));
    names.push(String::from_str("dev-server.sh"));
    names.push(String::from_str("start-dev.sh"));
    names
}

/// The names that occur in `present`.
pub open spec fn among(present: Seq<Seq<char>>) -> spec_fn(Seq<char>) -> bool {
    |name: Seq<char>| present.contains(name)
}

/// Whether `name` is one of `names`.
pub fn is_among(names: &Vec<String>, name: &String) -> (r: bool)
    ensures
        r == texts(names@).contains(name@),
{
    let mut i: usize = 0;
    while i < names.len()
        invariant
            i <= names.len(),
            forall|j: int| 0 <= j < i ==> texts(names@)[j] != name@,
        decreases names.len() - i,
    {
        if names[i] == *name {
            assert(texts(names@)[i as int] == name@);
            return true;
        }
        i += 1;
    }
    false
}

/// The first of `candidates` that is among `present`, if any is.
pub fn first_present(candidates: &Vec<String>, present: &Vec<String>) -> (r: Option<String>)
    ensures
        match first_where(texts(candidates@), among(texts(present@))) {
            Some(i) => 0 <= i < candidates.len() && opt_text(r) == Some(texts(candidates@)[i]),
            None => r is None,
        },
{
    let mut i: usize = 0;
    while i < candidates.len()
        invariant
            i <= candidates.len(),
            forall|j: int| 0 <= j < i ==> !among(texts(present@))(#[trigger] texts(candidates@)[j]),
        decreases candidates.len() - i,
    {
        if is_among(present, &candidates[i]) {
            proof {
                lemma_first_where_is(texts(candidates@), among(texts(present@)), i as int);
            }
            return Some(candidates[i].clone());
        }
        i += 1;
    }
    proof {
        lemma_first_where_none(texts(candidates@), among(texts(present@)));
    }
    None
}

/// A project that is started by the script file of the given name and kind.
pub open spec fn started_by_file(name: Seq<char>, kind: Seq<char>) -> AvailableScriptsView {
    AvailableScriptsView {
        has_dev: true,
        has_build: false,
        dev_script_name: Some(name),
        dev_script_type: Some(kind),
        dev_command: None,
        build_command: None,
    }
}

/// A project of which no way to run or build it is known.
pub open spec fn no_scripts() -> AvailableScriptsView {
    AvailableScriptsView {
        has_dev: false,
        has_build: false,
        dev_script_name: None,
        dev_script_type: None,
        dev_command: None,
        build_command: None,
    }
}

/// How a project is started by a script file, where one of the known names
/// is among the files that are present: by the first such batch file, else
/// by the first such shell script.
pub open spec fn file_scripts(present: Seq<Seq<char>>) -> Option<AvailableScriptsView> {
    match first_where(batch_names(), among(present)) {
        Some(i) => Some(started_by_file(batch_names()[i], "bat"@)),
        None => match first_where(shell_names(), among(present)) {
            Some(i) => Some(started_by_file(shell_names()[i], "sh"@)),
            None => None,
        },
    }
}

/// Looks for a script file that starts the development server among the
/// names of the files that are present in the project directory.
pub fn detect_script_file(present: &Vec<String>) -> (r: Option<AvailableScripts>)
    ensures
        match file_scripts(texts(present@)) {
            Some(v) => r matches Some(x) && x@ == v,
            None => r is None,
        },
{
    if let Some(name) = first_present(&dev_bat_files(), present) {
        return Some(
            AvailableScripts {
                has_dev: true,
                has_build: false,
                dev_script_name: Some(name),
                dev_script_type: Some(String::from_str("bat")),
                dev_command: None,
                build_command: None,
            },
        );
    }
    if let Some(name) = first_present(&dev_sh_files(), present) {
        return Some(
            AvailableScripts {
                has_dev: true,
                has_build: false,
                dev_script_name: Some(name),
                dev_script_type: Some(String::from_str("sh")),
                dev_command: None,
                build_command: None,
            },
        );
    }
    None
}

/// How a project is run and built by the scripts of its package
/// description. The development server is started by the script `dev` or,
/// where there is none, by the script `start`; the project is built by the
/// script `build`. A project without a package description, or with one
/// without scripts, has neither.
pub open spec fn package_scripts(package: Option<Option<Seq<(Seq<char>, Seq<char>)>>>) -> AvailableScriptsView {
    match package {
        Some(Some(scripts)) => {
            let dev = value_of(scripts, "dev"@);
            let start = value_of(scripts, "start"@);
            let build = value_of(scripts, "build"@);
            let has_dev = dev is Some || start is Some;
            AvailableScriptsView {
                has_dev,
                has_build: build is Some,
                dev_script_name: if dev is Some {
                    Some("dev"@)
                } else if start is Some {
                    Some("start"@)
                } else {
                    None
                },
                dev_script_type: if has_dev {
                    Some("npm"@)
                } else {
                    None
                },
                dev_command: if dev is Some {
                    dev
                } else {
                    start
                },
                build_command: build,
            }
        },
        _ => no_scripts(),
    }
}

/// The view of an optional package description.
pub open spec fn opt_package(package: Option<PackageJson>) -> Option<Option<Seq<(Seq<char>, Seq<char>)>>> {
    match package {
        Some(p) => Some(p@),
        None => None,
    }
}

/// Reads how a project is run and built off its package description; `None`
/// stands for a project without one.
pub fn detect_package_scripts(package: &Option<PackageJson>) -> (r: AvailableScripts)
    ensures
        r@ == package_scripts(opt_package(*package)),
{
    let none = AvailableScripts {
        has_dev: false,
        has_build: false,
        dev_script_name: None,
        dev_script_type: None,
        dev_command: None,
        build_command: None,
    };
    match package {
        Some(PackageJson { scripts: Some(scripts) }) => {
            let dev = lookup(scripts, "dev");
            let start = lookup(scripts, "start");
            let build = lookup(scripts, "build");
            let has_build = build.is_some();
            if dev.is_some() {
                AvailableScripts {
                    has_dev: true,
                    has_build,
                    dev_script_name: Some(String::from_str("dev")),
                    dev_script_type: Some(String::from_str("npm")),
                    dev_command: dev,
                    build_command: build,
                }
            } else if start.is_some() {
                AvailableScripts {
                    has_dev: true,
                    has_build,
                    dev_script_name: Some(String::from_str("start")),
                    dev_script_type: Some(String::from_str("npm")),
                    dev_command: start,
                    build_command: build,
                }
            } else {
                AvailableScripts {
                    has_dev: false,
                    has_build,
                    dev_script_name: None,
                    dev_script_type: None,
                    dev_command: None,
                    build_command: build,
                }
            }
        },
        _ => none,
    }
}

/// Finds out how a project is run and built: by a script file among the
/// files that are present or, where there is none, by the scripts of its
/// package description.
pub fn detect_npm_scripts(present: &Vec<String>, package: &Option<PackageJson>) -> (r: AvailableScripts)
    ensures
        r@ == match file_scripts(texts(present@)) {
            Some(v) => v,
            None => package_scripts(opt_package(*package)),
        },
{
    match detect_script_file(present) {
        Some(found) => found,
        None => detect_package_scripts(package),
    }
}

/// The kinds of script that start a development server.
#[derive(Clone, Copy, Debug, PartialEq, Eq, Structural)]
pub enum ScriptKind {
    /// A script of the package description.
    Npm,
    /// A batch file.
    Bat,
    /// A shell script.
    Sh,
}

/// The kind that a name of a kind stands for: `bat` and `sh` for the two
/// kinds of script file, any other name and no name for a script of the
/// package description.
pub open spec fn kind_of(script_type: Option<Seq<char>>) -> ScriptKind {
    match script_type {
        Some(name) => if name == "bat"@ {
            ScriptKind::Bat
        } else if name == "sh"@ {
            ScriptKind::Sh
        } else {
            ScriptKind::Npm
        },
        None => ScriptKind::Npm,
    }
}

/// Reads the kind of a script off its name.
pub fn script_kind(script_type: &Option<String>) -> (r: ScriptKind)
    ensures
        r == kind_of(opt_text(*script_type)),
{
    match script_type {
        Some(name) => if *name == String::from_str("bat") {
            ScriptKind::Bat
        } else if *name == String::from_str("sh") {
            ScriptKind::Sh
        } else {
            ScriptKind::Npm
        },
        None => ScriptKind::Npm,
    }
}

/// The shell command that runs a script in the directory of a project: a
/// script file is run by its name, a script of the package description by
/// the package manager.
pub open spec fn run_command(project_path: Seq<char>, script_name: Seq<char>, kind: ScriptKind) -> Seq<char> {
    match kind {
        ScriptKind::Npm => "cd '"@ + project_path + "' && npm run "@ + script_name,
        _ => "cd '"@ + project_path + "' && ./"@ + script_name,
    }
}

/// Makes the shell command that runs a script in the directory of a
/// project.
pub fn script_shell_command(project_path: &str, script_name: &str, kind: ScriptKind) -> (r: String)
    ensures
        r@ == run_command(project_path@, script_name@, kind),
{
    match kind {
        ScriptKind::Npm => String::from_str("cd '").concat(project_path).concat(
            "' && npm run ",
        ).concat(script_name),
        _ => String::from_str("cd '").concat(project_path).concat("' && ./").concat(script_name),
    }
}

/// Makes the shell command that runs a script in a new terminal and
/// leaves a shell open behind it.
pub fn script_terminal_command(project_path: &str, script_name: &str, kind: ScriptKind) -> (r: String)
    ensures
        r@ == run_command(project_path@, script_name@, kind) + "; exec bash"@,
{
    script_shell_command(project_path, script_name, kind).concat("; exec bash")
}

/// Makes the script that runs a script of a project in a new terminal
/// window of the desktop.
pub fn script_terminal_script(project_path: &str, script_name: &str, kind: ScriptKind) -> (r: String)
    ensures
        r@ == "tell application \"Terminal\" to do script \""@ + run_command(
            project_path@,
            script_name@,
            kind,
        ) + "\""@,
{
    String::from_str("tell application \"Terminal\" to do script \"").concat(
        script_shell_command(project_path, script_name, kind).as_str(),
    ).concat("\"")
}

/// Makes the command with which the package manager runs a script.
pub fn npm_run_command(script_name: &str) -> (r: String)
    ensures
        r@ == "npm run "@ + script_name@,
{
    String::from_str("npm run ").concat(script_name)
}

/// The lines of a list of process ids, each without the white space
/// around it, in order and without those that are empty then.
pub open spec fn listed_ids(lines: Seq<Seq<char>>) -> Seq<Seq<char>>
    decreases lines.len(),
{
    if lines.len() == 0 {
        Seq::empty()
    } else if trimmed(lines.last()).len() == 0 {
        listed_ids(lines.drop_last())
    } else {
        listed_ids(lines.drop_last()).push(trimmed(lines.last()))
    }
}

/// Reads the process ids off the output of a command that prints one on
/// each line.
pub fn listed_process_ids(output: &str) -> (r: Vec<String>)
    ensures
        texts(r@) == listed_ids(lines_of(output@)),
{
    let all = lines(&to_chars(output));
    let mut ids: Vec<String> = Vec::new();
    let mut i: usize = 0;
    while i < all.len()
        invariant
            i <= all.len(),
            char_views(all@) == lines_of(output@),
            texts(ids@) == listed_ids(lines_of(output@).take(i as int)),
        decreases all.len() - i,
    {
        proof {
            let ls = lines_of(output@);
            assert(ls.take(i + 1).drop_last() =~= ls.take(i as int));
        }
        let id = trim(&all[i]);
        if id.len() > 0 {
            let text = text_of(&id);
            ids.push(text);
        }
        i += 1;
    }
    proof {
        assert(lines_of(output@).take(all@.len() as int) =~= lines_of(output@));
    }
    ids
}

/// The word at the end of a text: its longest end without white space.
pub open spec fn word_at_end(s: Seq<char>) -> Seq<char>
    decreases s.len(),
{
    if s.len() == 0 || white_space(s.last()) {
        Seq::empty()
    } else {
        word_at_end(s.drop_last()).push(s.last())
    }
}

/// The last word of a line: the word at its end once the white space at
/// its end is taken away. A line of white space has none.
pub open spec fn last_word(line: Seq<char>) -> Option<Seq<char>> {
    if trimmed_end(line).len() == 0 {
        None
    } else {
        Some(word_at_end(trimmed_end(line)))
    }
}

/// Reads the last word of a line.
pub fn last_word_of(line: &Vec<char>) -> (r: Option<Vec<char>>)
    ensures
        match last_word(line@) {
            Some(word) => r matches Some(w) && w@ == word,
            None => r is None,
        },
{
    let n = line.len();
    let mut b: usize = n;
    proof {
        assert(line@.take(n as int) =~= line@);
    }
    while b > 0 && is_white_space(line[b - 1])
        invariant
            b <= n,
            n == line.len(),
            trimmed_end(line@) == trimmed_end(line@.take(b as int)),
        decreases b,
    {
        proof {
            assert(line@.take(b as int).drop_last() =~= line@.take(b - 1));
        }
        b -= 1;
    }
    if b == 0 {
        return None;
    }
    let ghost kept = line@.take(b as int);
    let mut a: usize = b;
    proof {
        assert(kept.take(b as int) =~= kept);
    }
    while a > 0 && !is_white_space(line[a - 1])
        invariant
            a <= b <= n,
            n == line.len(),
            kept == line@.take(b as int),
            word_at_end(kept) == word_at_end(kept.take(a as int)) + kept.subrange(
                a as int,
                b as int,
            ),
        decreases a,
    {
        proof {
            assert(kept.take(a as int).drop_last() =~= kept.take(a - 1));
        }
        a -= 1;
    }
    let word = slice(line, a, b);
    Some(word)
}

/// The last words of the lines that have one, in order.
pub open spec fn last_words(lines: Seq<Seq<char>>) -> Seq<Seq<char>>
    decreases lines.len(),
{
    if lines.len() == 0 {
        Seq::empty()
    } else {
        match last_word(lines.last()) {
            Some(word) => last_words(lines.drop_last()).push(word),
            None => last_words(lines.drop_last()),
        }
    }
}

/// Reads the process ids off the output of a command that prints one at
/// the end of each line, behind other columns.
pub fn last_column_process_ids(output: &str) -> (r: Vec<String>)
    ensures
        texts(r@) == last_words(lines_of(output@)),
{
    let all = lines(&to_chars(output));
    let mut ids: Vec<String> = Vec::new();
    let mut i: usize = 0;
    while i < all.len()
        invariant
            i <= all.len(),
            char_views(all@) == lines_of(output@),
            texts(ids@) == last_words(lines_of(output@).take(i as int)),
        decreases all.len() - i,
    {
        proof {
            let ls = lines_of(output@);
            assert(ls.take(i + 1).drop_last() =~= ls.take(i as int));
        }
        if let Some(word) = last_word_of(&all[i]) {
            let text = text_of(&word);
            ids.push(text);
        }
        i += 1;
    }
    proof {
        assert(lines_of(output@).take(all@.len() as int) =~= lines_of(output@));
    }
    ids
}

} // verus!
