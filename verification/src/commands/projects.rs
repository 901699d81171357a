//! What is known of a project directory: its name, its status, the
//! metadata that its author wrote down, and the texts of the files that a
//! project starts with.

use vstd::prelude::*;
use vstd::string::StringExecFns;
use vstd::string::StringSliceAdditionalSpecFns;
use vstd::utf8::encode_utf8;
use crate::chars::{
    char_views, contains, lines, lines_of, lowercase, lowercased, occurs_in, replace_all, replaced_all,
    starts_with, strip_prefixes, text_of, to_chars, trim, trimmed, without_prefixes,
};
use crate::models::feedback::{FeedbackFile, FeedbackItemView, FeedbackStatus};
use crate::models::project::{Project, ProjectView};
use crate::sequences::{relation, stable_sort, stable_sorted, views, Precedence};
use crate::text::{
    lemma_lex_le_total, lemma_lex_le_transitive, opt_text, text_before_eq, text_le, texts,
};

verus! {

/// The status of a project whose metadata names none: deployed where it
/// has a deployment URL, else implemented as a first version where it is
/// under version control, else initialized.
pub open spec fn detected_status(has_git: bool, has_deployment_url: bool) -> Seq<char> {
    if has_deployment_url {
        "deployed"@
    } else if has_git {
        "mvp-implemented"@
    } else {
        "initialized"@
    }
}

/// Picks the status of a project whose metadata names none. The path of
/// the project plays no part.
pub fn auto_detect_status(_project_path: &str, has_git: bool, deployment_url: &Option<String>) -> (r:
    String)
    ensures
        r@ == detected_status(has_git, deployment_url is Some),
{
    if deployment_url.is_some() {
        String::from_str("deployed")
    } else if has_git {
        String::from_str("mvp-implemented")
    } else {
        String::from_str("initialized")
    }
}

/// What holds of the last component of a path on every platform: it is
/// not empty, and it stands in the path.
pub open spec fn is_component_of(name: Seq<char>, path: Seq<char>) -> bool {
    &&& name.len() > 0
    &&& occurs_in(name, path)
}

/// The last component of a path, by `std::path::Path::file_name`, where
/// the path has one.
///
/// Trusted: the contract claims that a component which is returned is not
/// empty and stands in the path. Which part of the path it is, and whether
/// there is one, depends on the platform and is not claimed.
#[verifier::external_body]
pub(crate) fn final_component(path: &str) -> (r: Option<String>)
    ensures
        r matches Some(name) ==> is_component_of(name@, path@),
{
    match std::path::Path::new(path).file_name() {
        Some(name) => match name.to_str() {
            Some(text) => Some(text.to_string()),
            None => None,
        },
        None => None,
    }
}

/// The name under which a project goes: the last component of its path,
/// or `Unknown` where the path has none.
pub open spec fn name_or_unknown(component: Option<Seq<char>>) -> Seq<char> {
    match component {
        Some(name) => name,
        None => "Unknown"@,
    }
}

/// The name of a project whose path has the given last component.
pub fn project_name_from(component: Option<String>) -> (r: String)
    ensures
        r@ == name_or_unknown(opt_text(component)),
{
    match component {
        Some(name) => name,
        None => String::from_str("Unknown"),
    }
}

/// The name of the project at a path: the last component of the path, or
/// `Unknown` where it has none.
///
/// Which part of a path is its last component is for the platform to say,
/// so the contract holds for whatever it says: the name is `Unknown`, or it
/// is a component of the path.
pub fn get_project_name(path: &str) -> (r: String)
    ensures
        r@ == "Unknown"@ || is_component_of(r@, path@),
{
    project_name_from(final_component(path))
}

/// The mathematical view of [`ParsedMetadata`].
pub struct ParsedMetadataView {
    pub name: Option<Seq<char>>,
    pub description: Seq<char>,
    pub deployment_url: Option<Seq<char>>,
    pub tech_stack: Seq<Seq<char>>,
    pub status: Option<Seq<char>>,
}

/// What the metadata file of a project says of it.
#[derive(Debug, PartialEq, Eq)]
pub struct ParsedMetadata {
    pub name: Option<String>,
    pub description: String,
    pub deployment_url: Option<String>,
    pub tech_stack: Vec<String>,
    pub status: Option<String>,
}

impl View for ParsedMetadata {
    type V = ParsedMetadataView;

    open spec fn view(&self) -> ParsedMetadataView {
        ParsedMetadataView {
            name: opt_text(self.name),
            description: self.description@,
            deployment_url: opt_text(self.deployment_url),
            tech_stack: texts(self.tech_stack@),
            status: opt_text(self.status),
        }
    }
}

/// A reader of metadata between two lines: what it has read, and the
/// section in which it stands.
pub struct MetadataReader {
    pub parsed: ParsedMetadataView,
    pub in_description: bool,
    pub in_tech_stack: bool,
}

/// The reader before the first line: nothing read, in no section.
pub open spec fn fresh_reader() -> MetadataReader {
    MetadataReader {
        parsed: ParsedMetadataView {
            name: None,
            description: Seq::empty(),
            deployment_url: None,
            tech_stack: Seq::empty(),
            status: None,
        },
        in_description: false,
        in_tech_stack: false,
    }
}

/// The value of a line that starts with `key`: what follows the key, and
/// any repetition of it, without the white space around it.
pub open spec fn value_after(line: Seq<char>, key: Seq<char>) -> Seq<char> {
    trimmed(without_prefixes(line, key))
}

/// The reader after one more line. White space around the line does not
/// count. A line that starts with `Name:` or `Status:` sets the name or the
/// status. A line that starts with `##` is a heading: `## Description` and
/// `## Tech Stack` open their section, any other heading closes both. Any
/// other line belongs to the section in which the reader stands: in the
/// description, a line that is not empty is added to the description, after
/// a space where the description is not empty; in the tech stack, a line
/// that starts with a hyphen adds what follows the hyphens, unless that is
/// empty; outside both, a line that starts with `http://` or `https://`
/// sets the deployment URL.
pub open spec fn read_line(r: MetadataReader, line: Seq<char>) -> MetadataReader {
    let t = trimmed(line);
    if "Name:"@.is_prefix_of(t) {
        MetadataReader {
            parsed: ParsedMetadataView { name: Some(value_after(t, "Name:"@)), ..r.parsed },
            ..r
        }
    } else if "Status:"@.is_prefix_of(t) {
        MetadataReader {
            parsed: ParsedMetadataView { status: Some(value_after(t, "Status:"@)), ..r.parsed },
            ..r
        }
    } else if "## Description"@.is_prefix_of(t) {
        MetadataReader { in_description: true, in_tech_stack: false, ..r }
    } else if "## Tech Stack"@.is_prefix_of(t) {
        MetadataReader { in_description: false, in_tech_stack: true, ..r }
    } else if "##"@.is_prefix_of(t) {
        MetadataReader { in_description: false, in_tech_stack: false, ..r }
    } else if r.in_description && t.len() > 0 {
        MetadataReader {
            parsed: ParsedMetadataView {
                description: if r.parsed.description.len() > 0 {
                    r.parsed.description + " "@ + t
                } else {
                    t
                },
                ..r.parsed
            },
            ..r
        }
    } else if r.in_tech_stack && "-"@.is_prefix_of(t) {
        if value_after(t, "-"@).len() > 0 {
            MetadataReader {
                parsed: ParsedMetadataView {
                    tech_stack: r.parsed.tech_stack.push(value_after(t, "-"@)),
                    ..r.parsed
                },
                ..r
            }
        } else {
            r
        }
    } else if !r.in_description && !r.in_tech_stack && ("http://"@.is_prefix_of(t)
        || "https://"@.is_prefix_of(t)) {
        MetadataReader { parsed: ParsedMetadataView { deployment_url: Some(t), ..r.parsed }, ..r }
    } else {
        r
    }
}

/// The reader after the given lines, read in order.
pub open spec fn read_lines(r: MetadataReader, lines: Seq<Seq<char>>) -> MetadataReader
    decreases lines.len(),
{
    if lines.len() == 0 {
        r
    } else {
        read_line(read_lines(r, lines.drop_last()), lines.last())
    }
}

/// What a metadata file says of its project: what a reader has read after
/// all the lines of the file.
pub open spec fn parsed_metadata(contents: Seq<char>) -> ParsedMetadataView {
    read_lines(fresh_reader(), lines_of(contents)).parsed
}

/// Reads the metadata file of a project. The empty text, which also stands
/// for a file that does not exist, says nothing.
pub fn parse_metadata_file(contents: &str) -> (r: ParsedMetadata)
    ensures
        r@ == parsed_metadata(contents@),
{
    let all = lines(&to_chars(contents));
    let mut parsed = ParsedMetadata {
        name: None,
        description: String::new(),
        deployment_url: None,
        tech_stack: Vec::new(),
        status: None,
    };
    let mut in_description = false;
    let mut in_tech_stack = false;
    let mut i: usize = 0;
    proof {
        assert(parsed@.tech_stack =~= Seq::empty());
    }
    while i < all.len()
        invariant
            i <= all.len(),
            char_views(all@) == lines_of(contents@),
            read_lines(fresh_reader(), lines_of(contents@).take(i as int)) == (MetadataReader {
                parsed: parsed@,
                in_description,
                in_tech_stack,
            }),
        decreases all.len() - i,
    {
        proof {
            assert(lines_of(contents@).take(i + 1).drop_last() =~= lines_of(contents@).take(
                i as int,
            ));
        }
        let t = trim(&all[i]);
        if starts_with(&t, "Name:") {
            parsed.name = Some(text_of(&trim(&strip_prefixes(&t, "Name:"))));
        } else if starts_with(&t, "Status:") {
            parsed.status = Some(text_of(&trim(&strip_prefixes(&t, "Status:"))));
        } else if starts_with(&t, "## Description") {
            in_description = true;
            in_tech_stack = false;
        } else if starts_with(&t, "## Tech Stack") {
            in_description = false;
            in_tech_stack = true;
        } else if starts_with(&t, "##") {
            in_description = false;
            in_tech_stack = false;
        } else if in_description && t.len() > 0 {
            if !parsed.description.as_str().is_empty() {
                parsed.description.append(" ");
            }
            parsed.description.append(text_of(&t).as_str());
        } else if in_tech_stack && starts_with(&t, "-") {
            let tech = trim(&strip_prefixes(&t, "-"));
            if tech.len() > 0 {
                let name = text_of(&tech);
                proof {
                    assert(texts(parsed.tech_stack@.push(name)) =~= texts(parsed.tech_stack@).push(
                        name@,
                    ));
                }
                parsed.tech_stack.push(name);
            }
        } else if !in_description && !in_tech_stack && (starts_with(&t, "http://") || starts_with(
            &t,
            "https://",
        )) {
            parsed.deployment_url = Some(text_of(&t));
        }
        i += 1;
    }
    proof {
        assert(lines_of(contents@).take(all@.len() as int) =~= lines_of(contents@));
    }
    parsed
}

/// Whether a list of ignored paths names the `.vibe` directory: whether
/// one of its lines, without the white space around it, is `.vibe` or
/// `.vibe/`.
pub open spec fn ignores_vibe(contents: Seq<char>) -> bool {
    exists|i: int|
        0 <= i < lines_of(contents).len() && {
            ||| trimmed(#[trigger] lines_of(contents)[i]) == ".vibe"@
            ||| trimmed(lines_of(contents)[i]) == ".vibe/"@
        }
}

/// A list of ignored paths with a line for the `.vibe` directory at its
/// end. A list that is not empty and does not end with a line feed gets one
/// before the new line.
pub open spec fn with_vibe_ignored(contents: Seq<char>) -> Seq<char> {
    if contents.len() > 0 && contents.last() != '\n' {
        contents + "\n"@ + ".vibe/\n"@
    } else {
        contents + ".vibe/\n"@
    }
}

/// Makes sure that a list of ignored paths names the `.vibe` directory.
/// Returns the new text of the list, or `None` where the list names the
/// directory already and stays as it is. The empty text stands for a list
/// that does not exist yet.
pub fn ensure_vibe_in_gitignore(contents: &str) -> (r: Option<String>)
    ensures
        opt_text(r) == if ignores_vibe(contents@) {
            None
        } else {
            Some(with_vibe_ignored(contents@))
        },
{
    let chars = to_chars(contents);
    let all = lines(&chars);
    let mut i: usize = 0;
    while i < all.len()
        invariant
            i <= all.len(),
            char_views(all@) == lines_of(contents@),
            forall|j: int|
                0 <= j < i ==> trimmed(#[trigger] lines_of(contents@)[j]) != ".vibe"@ && trimmed(
                    lines_of(contents@)[j],
                ) != ".vibe/"@,
        decreases all.len() - i,
    {
        proof {
            assert(char_views(all@)[i as int] == all@[i as int]@);
        }
        let line = text_of(&trim(&all[i]));
        if line == String::from_str(".vibe") || line == String::from_str(".vibe/") {
            return None;
        }
        i += 1;
    }
    let mut out = String::from_str(contents);
    let n = chars.len();
    if n > 0 && chars[n - 1] != '\n' {
        out.append("\n");
    }
    out.append(".vibe/\n");
    Some(out)
}

/// The heading under which project metadata is written.
pub const METADATA_HEADING: &'static str = "# Project Metadata\n\n";

/// The sections of a metadata file that are still to be filled in.
pub const METADATA_SECTIONS: &'static str =
    "## Description\n\n[Add a brief description of what this project does and its purpose]\n\n## Tech Stack\n\n- [Technology 1]\n- [Technology 2]\n- [Technology 3]\n\n## Deployment\n\n[Add deployment URL if applicable, or remove this section]\n";

/// The sections of the metadata file of a project that was just created.
pub const NEW_PROJECT_SECTIONS: &'static str =
    "## Description\n\n[Project description will be filled after writing the project pitch]\n\n## Tech Stack\n\n- [Technologies will be determined during technical spec phase]\n\n## Deployment\n\n[Deployment info will be added after MVP is deployed]\n";

/// The idea document of a project that was just created.
pub const IDEA_TEMPLATE: &'static str =
    "# Project Idea\n\n## Summary\n\n[One-sentence summary of the project]\n\n## Problem\n\n[Description of the core problem this project solves]\n\n## Core Features\n\n- [Feature 1]\n- [Feature 2]\n- [Feature 3]\n\n## Value Proposition\n\n[What value does this provide to users?]\n\n## Additional Requirements\n\n[Any additional requirements or constraints]\n";

/// What follows the line on its making in the design specification of a
/// project that was just created.
pub const DESIGN_SPEC_SECTIONS: &'static str =
    " after writing the project idea]\n\n## Core Features\n\n## User Flows\n\n## Design Decisions\n\n## Out of Scope\n";

/// What follows the line on its making in the technical specification of
/// a project that was just created.
pub const TECHNICAL_SPEC_SECTIONS: &'static str =
    " after the design spec is complete]\n\n## Architecture\n\n## Tech Stack\n\n## Data Models\n\n## Key Technical Decisions\n";

/// The pending feedback of a project that was just created.
pub const FEEDBACK_TEMPLATE: &'static str = "{\n  \"feedback\": []\n}";

/// The design specification of a project that was just created, which
/// names the coding assistant that will write it.
pub fn design_spec_template(assistant: &str) -> (r: String)
    ensures
        r@ == "# MVP Design Specification\n\n[This file will be generated with "@ + assistant@
            + DESIGN_SPEC_SECTIONS@,
{
    String::from_str("# MVP Design Specification\n\n[This file will be generated with ").concat(
        assistant,
    ).concat(DESIGN_SPEC_SECTIONS)
}

/// The technical specification of a project that was just created, which
/// names the coding assistant that will write it.
pub fn technical_spec_template(assistant: &str) -> (r: String)
    ensures
        r@ == "# Technical Specification\n\n[This file will be generated with "@ + assistant@
            + TECHNICAL_SPEC_SECTIONS@,
{
    String::from_str("# Technical Specification\n\n[This file will be generated with ").concat(
        assistant,
    ).concat(TECHNICAL_SPEC_SECTIONS)
}

/// The metadata file that a project gets where it has none: its name, the
/// status `draft`, and the sections to fill in.
pub fn metadata_template(folder_name: &str) -> (r: String)
    ensures
        r@ == "Name: "@ + folder_name@ + "\nStatus: draft\n\n"@ + METADATA_SECTIONS@,
{
    String::from_str("Name: ").concat(folder_name).concat("\nStatus: draft\n\n").concat(
        METADATA_SECTIONS,
    )
}

/// The metadata file with which one starts to describe a project: the
/// heading and the sections to fill in.
pub fn create_metadata_template() -> (r: String)
    ensures
        r@ == METADATA_HEADING@ + METADATA_SECTIONS@,
{
    String::from_str(METADATA_HEADING).concat(METADATA_SECTIONS)
}

/// The metadata file of a project that was just created: its name, the
/// status `initialized`, and the sections to fill in later.
pub fn new_project_metadata(project_name: &str) -> (r: String)
    ensures
        r@ == "Name: "@ + project_name@ + "\nStatus: initialized\n\n"@ + NEW_PROJECT_SECTIONS@,
{
    String::from_str("Name: ").concat(project_name).concat("\nStatus: initialized\n\n").concat(
        NEW_PROJECT_SECTIONS,
    )
}

/// A text with a hyphen in place of every space.
pub open spec fn hyphenated(text: Seq<char>) -> Seq<char> {
    replaced_all(text, " "@, "-"@)
}

/// Puts a hyphen in place of every space of a text.
pub fn hyphenate(text: &str) -> (r: String)
    ensures
        r@ == hyphenated(text@),
{
    text_of(&replace_all(&to_chars(text), &to_chars(" "), &to_chars("-")))
}

/// The name of the directory of a project: the name of the project in
/// lower case, with a hyphen in place of every space.
pub open spec fn folder_name_of(project_name: Seq<char>) -> Seq<char> {
    hyphenated(lowercased(project_name))
}

/// Makes the name of the directory of a project from its name.
pub fn project_folder_name(project_name: &str) -> (r: String)
    ensures
        r@ == folder_name_of(project_name@),
{
    hyphenate(lowercase(project_name).as_str())
}

/// The given items as a list, each on a line of its own behind a hyphen.
pub open spec fn bullet_list(items: Seq<Seq<char>>) -> Seq<char>
    decreases items.len(),
{
    if items.len() == 0 {
        Seq::empty()
    } else {
        bullet_list(items.drop_last()) + "- "@ + items.last() + "\n"@
    }
}

/// The metadata file that records a description, a tech stack and a
/// deployment URL. The description, where it is empty, and the deployment
/// section, where there is no URL, are left out.
pub open spec fn rendered_metadata(
    description: Seq<char>,
    tech_stack: Seq<Seq<char>>,
    deployment_url: Option<Seq<char>>,
) -> Seq<char> {
    METADATA_HEADING@ + "## Description\n\n"@ + (if description.len() > 0 {
        description + "\n\n"@
    } else {
        Seq::empty()
    }) + "## Tech Stack\n\n"@ + bullet_list(tech_stack) + "\n"@ + (match deployment_url {
        Some(url) => "## Deployment\n\n"@ + url + "\n"@,
        None => Seq::empty(),
    })
}

/// Writes the metadata file that records a description, a tech stack and
/// a deployment URL.
pub fn update_project_metadata(
    description: &str,
    tech_stack: &Vec<String>,
    deployment_url: &Option<String>,
) -> (r: String)
    ensures
        r@ == rendered_metadata(description@, texts(tech_stack@), opt_text(*deployment_url)),
{
    let mut content = String::from_str(METADATA_HEADING);
    content.append("## Description\n\n");
    if !description.is_empty() {
        content.append(description);
        content.append("\n\n");
    }
    content.append("## Tech Stack\n\n");
    let ghost head = content@;
    let mut i: usize = 0;
    while i < tech_stack.len()
        invariant
            i <= tech_stack.len(),
            content@ == head + bullet_list(texts(tech_stack@).take(i as int)),
        decreases tech_stack.len() - i,
    {
        content.append("- ");
        content.append(tech_stack[i].as_str());
        content.append("\n");
        proof {
            let items = texts(tech_stack@);
            assert(items.take(i + 1).drop_last() =~= items.take(i as int));
        }
        i += 1;
    }
    proof {
        assert(texts(tech_stack@).take(tech_stack@.len() as int) =~= texts(tech_stack@));
    }
    content.append("\n");
    match deployment_url {
        Some(url) => {
            content.append("## Deployment\n\n");
            content.append(url.as_str());
            content.append("\n");
        },
        None => {},
    }
    content
}

/// Whether a metadata file says something of its project: it holds neither
/// of the two placeholders of the template, and it is longer than 50 bytes.
pub open spec fn is_meaningful(contents: Seq<char>) -> bool {
    &&& !occurs_in("[Add a brief description"@, contents)
    &&& !occurs_in("[Technology 1]"@, contents)
    &&& encode_utf8(contents).len() > 50
}

/// Decides whether a metadata file says something of its project.
pub fn check_metadata_exists(contents: &str) -> (r: bool)
    ensures
        r == is_meaningful(contents@),
{
    let chars = to_chars(contents);
    !contains(&chars, "[Add a brief description") && !contains(&chars, "[Technology 1]")
        && contents.as_bytes().len() > 50
}

/// What stands before the name of the project in the request to fill in
/// its metadata.
pub const METADATA_PROMPT_HEAD: &'static str =
    "Please analyze this project and fill out the vibe-hub.md metadata file with accurate information.\n\nProject: ";

/// What stands behind the name of the project in the request to fill in
/// its metadata.
pub const METADATA_PROMPT_TAIL: &'static str =
    "\n\nInstructions:\n1. Scan key files in the project (package.json, README.md, source files, etc.)\n2. Come up with a nice display name for the project (not just the folder name)\n3. Determine the project status (draft/in-progress/deployed)\n4. Identify the project's purpose and write a clear description\n5. List all major technologies in the tech stack\n6. Look for deployment configuration or URLs if present\n\nThe vibe-hub.md file should have this format:\n\nName: [A nice human-readable project name]\nStatus: [draft OR in-progress OR deployed]\n\n## Description\n\n[Write a 1-2 sentence description of what this project does]\n\n## Tech Stack\n\n- [Technology 1]\n- [Technology 2]\n- [Technology 3]\n\n## Deployment\n\n[Add deployment URL if found, otherwise remove this section]\n\nPlease update the vibe-hub.md file now with accurate information based on your analysis of the codebase.";

/// The request to fill in the metadata of the project of the given name.
pub fn generate_metadata_prompt(project_name: &str) -> (r: String)
    ensures
        r@ == METADATA_PROMPT_HEAD@ + project_name@ + METADATA_PROMPT_TAIL@,
{
    String::from_str(METADATA_PROMPT_HEAD).concat(project_name).concat(METADATA_PROMPT_TAIL)
}

/// The idea document that records the given answers. The additional
/// requirements, where they are empty, are left out with their heading.
pub open spec fn rendered_idea(
    summary: Seq<char>,
    problem: Seq<char>,
    core_functionality: Seq<char>,
    value_proposition: Seq<char>,
    additional_requirements: Seq<char>,
) -> Seq<char> {
    "# Project Idea\n\n"@ + "## Summary\n\n"@ + summary + "\n\n"@ + "## Problem\n\n"@ + problem
        + "\n\n"@ + "## Core Functionality\n\n"@ + core_functionality + "\n\n"@
        + "## Value Proposition\n\n"@ + value_proposition + "\n"@ + (if additional_requirements.len()
        > 0 {
        "\n## Additional Requirements\n\n"@ + additional_requirements + "\n"@
    } else {
        Seq::empty()
    })
}

/// Writes the idea document that records the given answers.
pub fn render_project_idea(
    summary: &str,
    problem: &str,
    core_functionality: &str,
    value_proposition: &str,
    additional_requirements: &str,
) -> (r: String)
    ensures
        r@ == rendered_idea(
            summary@,
            problem@,
            core_functionality@,
            value_proposition@,
            additional_requirements@,
        ),
{
    let mut content = String::from_str("# Project Idea\n\n");
    content.append("## Summary\n\n");
    content.append(summary);
    content.append("\n\n");
    content.append("## Problem\n\n");
    content.append(problem);
    content.append("\n\n");
    content.append("## Core Functionality\n\n");
    content.append(core_functionality);
    content.append("\n\n");
    content.append("## Value Proposition\n\n");
    content.append(value_proposition);
    content.append("\n");
    if !additional_requirements.is_empty() {
        content.append("\n## Additional Requirements\n\n");
        content.append(additional_requirements);
        content.append("\n");
    }
    content
}

/// A line of metadata once the idea of the project is written down: the
/// line that gives the status now says `idea`, every other line stays.
pub open spec fn idea_line(line: Seq<char>) -> Seq<char> {
    if "Status:"@.is_prefix_of(line) {
        "Status: idea"@
    } else {
        line
    }
}

/// The given lines, each changed as [`idea_line`] says, with a line feed
/// between one and the next.
pub open spec fn idea_lines(lines: Seq<Seq<char>>) -> Seq<char>
    decreases lines.len(),
{
    if lines.len() == 0 {
        Seq::empty()
    } else if lines.len() == 1 {
        idea_line(lines[0])
    } else {
        idea_lines(lines.drop_last()) + "\n"@ + idea_line(lines.last())
    }
}

/// The metadata file of a project once its idea is written down: its
/// lines, with the status `idea`, joined by line feeds.
pub fn metadata_with_idea_status(contents: &str) -> (r: String)
    ensures
        r@ == idea_lines(lines_of(contents@)),
{
    let all = lines(&to_chars(contents));
    let mut out = String::new();
    let mut i: usize = 0;
    while i < all.len()
        invariant
            i <= all.len(),
            char_views(all@) == lines_of(contents@),
            out@ == idea_lines(lines_of(contents@).take(i as int)),
        decreases all.len() - i,
    {
        proof {
            let ls = lines_of(contents@);
            assert(ls.take(i + 1).drop_last() =~= ls.take(i as int));
        }
        if i > 0 {
            out.append("\n");
        }
        if starts_with(&all[i], "Status:") {
            out.append("Status: idea");
        } else {
            out.append(text_of(&all[i]).as_str());
        }
        i += 1;
    }
    proof {
        assert(lines_of(contents@).take(all@.len() as int) =~= lines_of(contents@));
    }
    out
}

/// The items that are pending.
pub open spec fn pending() -> spec_fn(FeedbackItemView) -> bool {
    |i: FeedbackItemView| i.status == FeedbackStatus::Pending
}

/// Counts the pending items of a feedback document.
pub fn pending_feedback_count(feedback: &FeedbackFile) -> (r: usize)
    ensures
        r == feedback@.filter(pending()).len(),
{
    let mut count: usize = 0;
    let mut i: usize = 0;
    while i < feedback.feedback.len()
        invariant
            i <= feedback.feedback.len(),
            count <= i,
            count == feedback@.take(i as int).filter(pending()).len(),
        decreases feedback.feedback.len() - i,
    {
        proof {
            assert(feedback@.take(i + 1) =~= feedback@.take(i as int).push(feedback@[i as int]));
            feedback@.take(i as int).lemma_filter_push(feedback@[i as int], pending());
        }
        if feedback.feedback[i].status == FeedbackStatus::Pending {
            count += 1;
        }
        i += 1;
    }
    proof {
        assert(feedback@.take(feedback@.len() as int) =~= feedback@);
    }
    count
}

/// Whether `p` is the most urgent priority among the pending items: a
/// pending item has it, and none has a smaller number.
pub open spec fn is_most_urgent(items: Seq<FeedbackItemView>, p: u8) -> bool {
    &&& exists|i: int| 0 <= i < items.len() && pending()(#[trigger] items[i]) && items[i].priority == p
    &&& forall|i: int| 0 <= i < items.len() && pending()(#[trigger] items[i]) ==> p <= items[i].priority
}

/// The most urgent priority among the pending items of a feedback
/// document, or `None` where no item is pending.
pub fn highest_feedback_priority(feedback: &FeedbackFile) -> (r: Option<u8>)
    ensures
        match r {
            Some(p) => is_most_urgent(feedback@, p),
            None => forall|i: int| 0 <= i < feedback@.len() ==> !pending()(#[trigger] feedback@[i]),
        },
{
    let mut best: Option<u8> = None;
    let mut i: usize = 0;
    while i < feedback.feedback.len()
        invariant
            i <= feedback.feedback.len(),
            match best {
                Some(p) => is_most_urgent(feedback@.take(i as int), p),
                None => forall|j: int| 0 <= j < i ==> !pending()(#[trigger] feedback@[j]),
            },
        decreases feedback.feedback.len() - i,
    {
        let ghost seen = feedback@.take(i as int);
        let ghost next = feedback@.take(i + 1);
        proof {
            assert(next[i as int] == feedback@[i as int]);
        }
        let item = &feedback.feedback[i];
        proof {
            if let Some(p) = best {
                let k = choose|k: int|
                    0 <= k < seen.len() && pending()(#[trigger] seen[k]) && seen[k].priority == p;
            }
        }
        if item.status == FeedbackStatus::Pending {
            let better = match best {
                Some(p) => item.priority < p,
                None => true,
            };
            if better {
                best = Some(item.priority);
            }
        }
        i += 1;
    }
    proof {
        assert(feedback@.take(feedback@.len() as int) =~= feedback@);
    }
    best
}

/// The project that the given facts describe. Its status is the one that
/// its metadata names, else the one that is detected. Its feedback count
/// and its highest feedback priority are those of the pending items. What
/// the facts do not cover is absent or false.
pub fn describe_project(
    id: String,
    name: String,
    path: String,
    metadata: ParsedMetadata,
    has_git: bool,
    last_modified: Option<String>,
    feedback: &FeedbackFile,
) -> (r: Project)
    ensures
        r@ == (ProjectView {
            id: id@,
            name: name@,
            display_name: metadata@.name,
            path: path@,
            description: metadata@.description,
            platform: None,
            is_local_first: None,
            is_open_source: None,
            has_backend: None,
            deployment_url: metadata@.deployment_url,
            status: match metadata@.status {
                Some(status) => status,
                None => detected_status(has_git, metadata@.deployment_url is Some),
            },
            color: None,
            text_color: None,
            icon_path: None,
            last_modified: opt_text(last_modified),
            feedback_count: r@.feedback_count,
            highest_feedback_priority: r@.highest_feedback_priority,
            has_uncommitted_changes: false,
            has_git_repo: has_git,
        }),
        r@.feedback_count == feedback@.filter(pending()).len(),
        match r@.highest_feedback_priority {
            Some(p) => is_most_urgent(feedback@, p),
            None => forall|i: int| 0 <= i < feedback@.len() ==> !pending()(#[trigger] feedback@[i]),
        },
{
    let status = match metadata.status {
        Some(status) => status,
        None => auto_detect_status(path.as_str(), has_git, &metadata.deployment_url),
    };
    Project {
        id,
        name,
        display_name: metadata.name,
        path,
        description: metadata.description,
        platform: None,
        is_local_first: None,
        is_open_source: None,
        has_backend: None,
        deployment_url: metadata.deployment_url,
        status,
        color: None,
        text_color: None,
        icon_path: None,
        last_modified,
        feedback_count: pending_feedback_count(feedback),
        highest_feedback_priority: highest_feedback_priority(feedback),
        has_uncommitted_changes: false,
        has_git_repo: has_git,
    }
}

/// Whether a time of modification stands before another or equals it. An
/// unknown time stands before every known one; known times stand as their
/// texts do.
pub open spec fn time_le(a: Option<Seq<char>>, b: Option<Seq<char>>) -> bool {
    match (a, b) {
        (None, _) => true,
        (Some(_), None) => false,
        (Some(x), Some(y)) => text_le(x, y),
    }
}

/// Sorting projects by the time of their last modification, latest first,
/// and those of unknown time last.
pub struct LatestFirst;

impl Precedence<Project> for LatestFirst {
    open spec fn before(a: ProjectView, b: ProjectView) -> bool {
        time_le(b.last_modified, a.last_modified)
    }

    proof fn before_is_total(a: ProjectView, b: ProjectView) {
        match (a.last_modified, b.last_modified) {
            (Some(x), Some(y)) => {
                lemma_lex_le_total(encode_utf8(x), encode_utf8(y));
            },
            _ => {},
        }
    }

    proof fn before_is_transitive(a: ProjectView, b: ProjectView, c: ProjectView) {
        match (a.last_modified, b.last_modified, c.last_modified) {
            (Some(x), Some(y), Some(z)) => {
                lemma_lex_le_transitive(encode_utf8(z), encode_utf8(y), encode_utf8(x));
            },
            _ => {},
        }
    }

    fn stands_before(a: &Project, b: &Project) -> (r: bool) {
        match (&b.last_modified, &a.last_modified) {
            (None, _) => true,
            (Some(_), None) => false,
            (Some(x), Some(y)) => text_before_eq(x.as_str(), y.as_str()),
        }
    }
}

/// Sorts projects by the time of their last modification, latest first;
/// projects of one time keep their order.
pub fn sort_projects(projects: &mut Vec<Project>)
    ensures
        stable_sorted(
            views(final(projects)@),
            views(old(projects)@),
            relation::<Project, LatestFirst>(),
        ),
{
    stable_sort::<Project, LatestFirst>(projects);
}

} // verus!
