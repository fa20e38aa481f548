//! Assembles the document: a heading, the tree of files, and their contents.

use crate::clock::{time_text, Moment, COMPACT, DATE_TIME};
use crate::detector::ProjectType;
use crate::error::SnapshotError;
use crate::path::{
    child_of, child_path, child_path_is_child, components, is_child_named, is_name, relative,
    relative_from, split, SEPARATOR,
};
use crate::project::{Project, ProjectModel};
use crate::text::{is_blank, trim, trimmed, trimmed_is_empty_when_blank};
use vstd::prelude::*;
use vstd::string::*;

verus! {

/// A file of the project as the host read it: its path, and its text where
/// the file could be read as text.
#[derive(Debug, Clone)]
pub struct FileText {
    pub path: String,
    pub text: Option<String>,
}

/// What a `FileText` stands for.
pub struct FileModel {
    pub path: Seq<char>,
    pub text: Option<Seq<char>>,
}

impl View for FileText {
    type V = FileModel;

    open spec fn view(&self) -> FileModel {
        FileModel { path: self.path@, text: self.text.deep_view() }
    }
}

impl DeepView for FileText {
    type V = FileModel;

    open spec fn deep_view(&self) -> FileModel {
        self@
    }
}

/// The text that `texts` holds for the file at `path`: that of the first
/// entry with this path.
pub open spec fn text_of(texts: Seq<FileModel>, path: Seq<char>) -> Option<Seq<char>>
    decreases texts.len(),
{
    if texts.len() == 0 {
        None
    } else if texts[0].path == path {
        texts[0].text
    } else {
        text_of(texts.drop_first(), path)
    }
}

/// The files at `paths`, each with the text that `texts` holds for it.
pub open spec fn with_texts(paths: Seq<Seq<char>>, texts: Seq<FileModel>) -> Seq<FileModel> {
    Seq::new(paths.len(), |i: int| FileModel { path: paths[i], text: text_of(texts, paths[i]) })
}

/// The text that `texts` holds for the file at `path`.
pub fn find_text(texts: &Vec<FileText>, path: &String) -> (text: Option<String>)
    ensures
        text.deep_view() == text_of(texts.deep_view(), path@),
{
    let ghost models = texts.deep_view();
    let mut i: usize = 0;
    assert(models.skip(0) == models);
    while i < texts.len()
        invariant
            i <= texts.len(),
            models == texts.deep_view(),
            text_of(models, path@) == text_of(models.skip(i as int), path@),
        decreases texts.len() - i,
    {
        assert(models.skip(i as int).drop_first() == models.skip(i + 1));
        if texts[i].path == *path {
            return match &texts[i].text {
                Some(text) => Some(text.clone()),
                None => None,
            };
        }
        i += 1;
    }
    None
}

/// The files at `paths`, each with the text that `texts` holds for it.
pub fn attach_texts(paths: &Vec<String>, texts: &Vec<FileText>) -> (files: Vec<FileText>)
    ensures
        files.deep_view() == with_texts(paths.deep_view(), texts.deep_view()),
{
    let ghost all = with_texts(paths.deep_view(), texts.deep_view());
    let mut files: Vec<FileText> = Vec::new();
    let mut i: usize = 0;
    while i < paths.len()
        invariant
            i <= paths.len(),
            all == with_texts(paths.deep_view(), texts.deep_view()),
            files.deep_view() == all.take(i as int),
        decreases paths.len() - i,
    {
        let text = find_text(texts, &paths[i]);
        files.push(FileText { path: paths[i].clone(), text });
        assert(all.take(i + 1) =~= all.take(i as int).push(all[i as int]));
        i += 1;
    }
    files
}

/// The first lines of a document.
pub open spec fn heading(name: Seq<char>, generated: Seq<char>, label: Seq<char>) -> Seq<char> {
    "# Project Summary: "@ + name + "\nGenerated: "@ + generated + "\nType: "@ + label + "\n\n"@
}

/// The line of `file` in the tree: its path below `root`. A file that does
/// not lie at or below `root` has no line.
pub open spec fn tree_line(root: Seq<char>, file: FileModel) -> Seq<char> {
    match relative(root, file.path) {
        Some(rest) => rest + "\n"@,
        None => Seq::empty(),
    }
}

/// The lines of `files` in the tree, in their order.
pub open spec fn tree(root: Seq<char>, files: Seq<FileModel>) -> Seq<char>
    decreases files.len(),
{
    if files.len() == 0 {
        Seq::empty()
    } else {
        tree(root, files.drop_last()) + tree_line(root, files.last())
    }
}

/// The section that shows the text of `file`. A file without text, or one
/// that does not lie at or below `root`, has no section.
pub open spec fn block(root: Seq<char>, file: FileModel) -> Seq<char> {
    match (relative(root, file.path), file.text) {
        (Some(rest), Some(text)) => "\n### "@ + rest + "\n```\n"@ + text + "\n```\n"@,
        _ => Seq::empty(),
    }
}

/// The sections of `files`, in their order.
pub open spec fn blocks(root: Seq<char>, files: Seq<FileModel>) -> Seq<char>
    decreases files.len(),
{
    if files.len() == 0 {
        Seq::empty()
    } else {
        blocks(root, files.drop_last()) + block(root, files.last())
    }
}

/// The whole document for `project`.
pub open spec fn summary(
    project: ProjectModel,
    label: Seq<char>,
    generated: Seq<char>,
    files: Seq<FileModel>,
) -> Seq<char> {
    heading(project.name, generated, label) + "## Project Structure\n```\n"@ + tree(
        project.path,
        files,
    ) + "```\n\n"@ + "## File Contents\n"@ + blocks(project.path, files)
}

/// The name of the document's file: the project's name and the time stamp.
pub open spec fn output_name(name: Seq<char>, stamp: Seq<char>) -> Seq<char> {
    name + "_snapshot_"@ + stamp + ".md"@
}

/// Where the document of `project` is written: in the project's root.
pub open spec fn output_path(project: ProjectModel, stamp: Seq<char>) -> Seq<char> {
    child_path(project.path, output_name(project.name, stamp))
}

/// What is added to the document for the user's answer `input`: a section
/// with the answer, trimmed; nothing where the answer is blank.
pub open spec fn prompt_section(input: Seq<char>) -> Option<Seq<char>> {
    if trimmed(input).len() == 0 {
        None
    } else {
        Some("\n## LLM Prompt\n"@ + trimmed(input) + "\n"@)
    }
}

/// A document ready to be written: where, what, and whether the user is to
/// be asked for a prompt afterwards.
#[derive(Debug, Clone)]
pub struct Document {
    pub path: String,
    pub text: String,
    pub ask_prompt: bool,
}

/// What a `Document` stands for.
pub struct DocumentModel {
    pub path: Seq<char>,
    pub text: Seq<char>,
    pub ask_prompt: bool,
}

impl View for Document {
    type V = DocumentModel;

    open spec fn view(&self) -> DocumentModel {
        DocumentModel { path: self.path@, text: self.text@, ask_prompt: self.ask_prompt }
    }
}

/// The document for `project` at the moment `now`, or the failure where
/// `now` cannot be written as a date.
pub open spec fn document(
    batch_mode: bool,
    project: ProjectModel,
    project_type: ProjectType,
    files: Seq<FileModel>,
    now: Moment,
) -> Result<DocumentModel, SnapshotError> {
    match (
        time_text(now.seconds as int, now.offset as int, DATE_TIME@),
        time_text(now.seconds as int, now.offset as int, COMPACT@),
    ) {
        (Some(generated), Some(stamp)) => Ok(
            DocumentModel {
                path: output_path(project, stamp),
                text: summary(project, project_type.label_text(), generated, files),
                ask_prompt: !batch_mode,
            },
        ),
        _ => Err(SnapshotError::TimeOutOfRange),
    }
}

/// Writes documents. In batch mode the user is not asked for a prompt.
pub struct OutputGenerator {
    pub batch_mode: bool,
}

impl OutputGenerator {
    /// A generator that asks for a prompt unless `batch_mode` is set.
    pub fn new(batch_mode: bool) -> (generator: Self)
        ensures
            generator.batch_mode == batch_mode,
    {
        Self { batch_mode }
    }

    /// The document for `project` over `files` at the moment `now`. Fails
    /// where `now` cannot be written as a date.
    pub fn generate(
        &self,
        project: Project,
        project_type: ProjectType,
        files: &Vec<FileText>,
        now: &Moment,
    ) -> (outcome: Result<Document, SnapshotError>)
        ensures
            match document(self.batch_mode, project@, project_type, files.deep_view(), *now) {
                Ok(model) => outcome is Ok && outcome->Ok_0@ == model,
                Err(failure) => outcome is Err && outcome->Err_0 == failure,
            },
    {
        let generated = match now.heading_text() {
            Some(generated) => generated,
            None => {
                return Err(SnapshotError::TimeOutOfRange);
            },
        };
        let path = match self.get_output_path(&project, now) {
            Some(path) => path,
            None => {
                return Err(SnapshotError::TimeOutOfRange);
            },
        };
        let text = self.create_summary(&project, &project_type, generated.as_str(), files);
        Ok(Document { path, text, ask_prompt: !self.batch_mode })
    }

    /// Where the document of `project` with the time stamp `stamp` is
    /// written.
    pub fn output_path_at(&self, project: &Project, stamp: &str) -> (path: String)
        ensures
            path@ == output_path(project@, stamp@),
    {
        let mut name = project.name.clone();
        name.append("_snapshot_");
        name.append(stamp);
        name.append(".md");
        child_of(project.path.as_str(), name.as_str())
    }

    /// Where the document of `project` generated at `now` is written; `None`
    /// where `now` cannot be written as a date.
    pub fn get_output_path(&self, project: &Project, now: &Moment) -> (path: Option<String>)
        ensures
            path.deep_view() == match time_text(
                now.seconds as int,
                now.offset as int,
                COMPACT@,
            ) {
                Some(stamp) => Some(output_path(project@, stamp)),
                None => None,
            },
    {
        match now.stamp() {
            Some(stamp) => Some(self.output_path_at(project, stamp.as_str())),
            None => None,
        }
    }

    /// What to add to the document once the user has answered `input` to
    /// the request for a prompt.
    pub fn handle_interactive_mode(&self, input: &str) -> (section: Option<String>)
        ensures
            section.deep_view() == prompt_section(input@),
    {
        let inner = trim(input);
        if inner.as_str().unicode_len() == 0 {
            return None;
        }
        let mut section = String::from_str("\n## LLM Prompt\n");
        section.append(inner.as_str());
        section.append("\n");
        Some(section)
    }

    /// The document for `project`, generated at the time written as
    /// `generated`, over `files` in the order given.
    pub fn create_summary(
        &self,
        project: &Project,
        project_type: &ProjectType,
        generated: &str,
        files: &Vec<FileText>,
    ) -> (text: String)
        ensures
            text@ == summary(project@, project_type.label_text(), generated@, files.deep_view()),
    {
        let base = split(project.path.as_str());
        let ghost root = project.path@;
        let ghost models = files.deep_view();

        let mut text = String::from_str("# Project Summary: ");
        text.append(project.name.as_str());
        text.append("\nGenerated: ");
        text.append(generated);
        text.append("\nType: ");
        text.append(project_type.label());
        text.append("\n\n");
        text.append("## Project Structure\n```\n");
        let ghost top = text@;

        let mut i: usize = 0;
        while i < files.len()
            invariant
                i <= files.len(),
                models == files.deep_view(),
                base.deep_view() == components(root),
                text@ == top + tree(root, models.take(i as int)),
            decreases files.len() - i,
        {
            assert(models.take(i + 1).drop_last() == models.take(i as int));
            match relative_from(&base, files[i].path.as_str()) {
                Some(rest) => {
                    text.append(rest.as_str());
                    text.append("\n");
                },
                None => {},
            }
            i += 1;
        }
        assert(models.take(files.len() as int) == models);
        text.append("```\n\n");
        text.append("## File Contents\n");
        let ghost middle = text@;

        let mut k: usize = 0;
        while k < files.len()
            invariant
                k <= files.len(),
                models == files.deep_view(),
                base.deep_view() == components(root),
                text@ == middle + blocks(root, models.take(k as int)),
            decreases files.len() - k,
        {
            assert(models.take(k + 1).drop_last() == models.take(k as int));
            match (relative_from(&base, files[k].path.as_str()), &files[k].text) {
                (Some(rest), Some(content)) => {
                    text.append("\n### ");
                    text.append(rest.as_str());
                    text.append("\n```\n");
                    text.append(content.as_str());
                    text.append("\n```\n");
                },
                _ => {},
            }
            k += 1;
        }
        text
    }
}

/// The document of a project whose name is a single component stands
/// directly in the project's root, under the name made of the project's name
/// and the time stamp, provided the stamp holds no separator.
pub proof fn document_stands_in_root(project: ProjectModel, stamp: Seq<char>)
    requires
        is_name(project.name),
        forall|i: int| 0 <= i < stamp.len() ==> stamp[i] != SEPARATOR,
    ensures
        is_child_named(
            project.path,
            output_path(project, stamp),
            output_name(project.name, stamp),
        ),
{
    reveal_strlit("_snapshot_");
    reveal_strlit(".md");
    let name = output_name(project.name, stamp);
    let a = project.name.len();
    let b = a + "_snapshot_"@.len();
    let c = b + stamp.len();
    assert forall|i: int| 0 <= i < name.len() implies name[i] != SEPARATOR by {
        if i < a {
            assert(name[i] == project.name[i]);
        } else if i < b {
            assert(name[i] == "_snapshot_"@[i - a]);
        } else if i < c {
            assert(name[i] == stamp[i - b]);
        } else {
            assert(name[i] == ".md"@[i - c]);
        }
    }
    child_path_is_child(project.path, name);
}

/// Nothing is added to the document exactly for the answers that hold
/// nothing but whitespace: an empty line skips the prompt.
pub proof fn blank_answer_adds_nothing(input: Seq<char>)
    ensures
        prompt_section(input) is None <==> is_blank(input),
{
    trimmed_is_empty_when_blank(input);
}

} // verus!
