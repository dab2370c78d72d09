//! Names and paths: the name under which a source file enters an archive,
//! the place where an entry is extracted to, and the checks on the path of an
//! archive that is to be created.

use vstd::prelude::*;
use vstd::string::StringExecFns;
use crate::text::texts;

verus! {

/// The text starts with `../`.
pub open spec fn starts_with_ascent(text: Seq<char>) -> bool {
    text.len() >= 3 && text[0] == '.' && text[1] == '.' && text[2] == '/'
}

/// The text with every `../` taken out, in one pass from the left: what
/// follows a removed `../` is looked at next, and no character is looked at
/// twice. The rest of the text is kept as it is; nothing is resolved.
pub open spec fn without_ascents(text: Seq<char>) -> Seq<char>
    decreases text.len(),
{
    if text.len() == 0 {
        text
    } else if starts_with_ascent(text) {
        without_ascents(text.skip(3))
    } else {
        seq![text[0]] + without_ascents(text.skip(1))
    }
}

/// A leading `../` leaves no trace in the name: sources that differ only in
/// how far they climb out of the working directory get the same name.
pub proof fn lemma_leading_ascent_is_dropped(text: Seq<char>)
    ensures
        without_ascents(seq!['.', '.', '/'] + text) == without_ascents(text),
{
    let climbing = seq!['.', '.', '/'] + text;
    assert(starts_with_ascent(climbing));
    assert(climbing.skip(3) == text);
}

/// A text that holds no `../` is its own name.
pub proof fn lemma_plain_text_is_kept(text: Seq<char>)
    requires
        forall|i: int| 0 <= i <= text.len() ==> !starts_with_ascent(#[trigger] text.skip(i)),
    ensures
        without_ascents(text) == text,
    decreases text.len(),
{
    assert(text.skip(0) == text);
    if text.len() > 0 {
        let rest = text.skip(1);
        assert forall|i: int| 0 <= i <= rest.len() implies !starts_with_ascent(
            #[trigger] rest.skip(i),
        ) by {
            assert(rest.skip(i) == text.skip(i + 1));
        }
        lemma_plain_text_is_kept(rest);
        assert(seq![text[0]] + rest == text);
    }
}

/// The characters of a text.
fn characters(text: &str) -> (chars: Vec<char>)
    ensures
        chars@ == text@,
{
    let mut chars: Vec<char> = Vec::new();
    for c in it: text.chars()
        invariant
            chars@ == it.seq().take(it.index() as int),
    {
        chars.push(c);
    }
    chars
}

/// The name under which a source file enters the archive, from its path
/// relative to the working directory: that path with every `../` removed, so
/// that a source outside the working directory still gets a relative name.
///
/// The rewrite works on the text alone, so two sources that differ only in
/// how far they climb get the same name.
pub fn entry_name_for(relative_path: &str) -> (name: String)
    ensures
        name@ == without_ascents(relative_path@),
{
    let chars = characters(relative_path);
    let mut name = String::new();
    let mut i: usize = 0;
    assert(chars@.skip(0) == chars@);
    while i < chars.len()
        invariant
            i <= chars@.len(),
            without_ascents(chars@) == name@ + without_ascents(chars@.skip(i as int)),
        decreases chars@.len() - i,
    {
        let ghost rest = chars@.skip(i as int);
        if chars.len() - i >= 3 && chars[i] == '.' && chars[i + 1] == '.' && chars[i + 2] == '/' {
            assert(rest.skip(3) == chars@.skip(i + 3));
            i += 3;
        } else {
            assert(rest.skip(1) == chars@.skip(i + 1));
            name.push(chars[i]);
            i += 1;
        }
    }
    name
}

/// The texts of a list of listings.
pub open spec fn listing_texts(listings: Seq<Vec<String>>) -> Seq<Seq<Seq<char>>> {
    Seq::new(listings.len(), |i: int| texts(listings[i]@))
}

/// The source paths of a run in the order in which they enter the archive:
/// the listings one after the other, each in its own order. A listing holds
/// what one path of the command line stands for: the file itself, or the
/// files below a directory.
pub fn flatten_sources(listings: &Vec<Vec<String>>) -> (paths: Vec<String>)
    ensures
        texts(paths@) == listing_texts(listings@).flatten(),
{
    let ghost all = listing_texts(listings@);
    let mut paths: Vec<String> = Vec::new();
    let mut i: usize = 0;
    assert(texts(paths@) == all.take(0).flatten_alt());
    while i < listings.len()
        invariant
            i <= listings@.len(),
            all == listing_texts(listings@),
            texts(paths@) == all.take(i as int).flatten_alt(),
        decreases listings@.len() - i,
    {
        let listing = &listings[i];
        let ghost before = texts(paths@);
        let mut j: usize = 0;
        assert(texts(paths@) == before + texts(listing@).take(0));
        while j < listing.len()
            invariant
                j <= listing@.len(),
                texts(paths@) == before + texts(listing@).take(j as int),
            decreases listing@.len() - j,
        {
            let ghost held = texts(paths@);
            paths.push(listing[j].clone());
            assert(texts(paths@) == held.push(listing@[j as int]@));
            assert(texts(listing@).take(j + 1) == texts(listing@).take(j as int).push(
                listing@[j as int]@,
            ));
            j += 1;
        }
        proof {
            assert(texts(listing@).take(j as int) == texts(listing@));
            let next = all.take(i + 1);
            assert(next.drop_last() == all.take(i as int));
            assert(next.last() == texts(listing@));
        }
        i += 1;
    }
    proof {
        assert(all.take(i as int) == all);
        all.lemma_flatten_and_flatten_alt_are_equivalent();
    }
    paths
}

/// The path that `iocore` makes of a base path and a part joined to it.
pub uninterp spec fn joined_path(base: Seq<char>, part: Seq<char>) -> Seq<char>;

/// The path that `iocore` makes of a path by taking the extension off its
/// last component.
pub uninterp spec fn path_without_extension(path: Seq<char>) -> Seq<char>;

/// The last component of a path, as `iocore` reads it.
pub uninterp spec fn path_file_name(path: Seq<char>) -> Seq<char>;

/// The extension of a path with its leading dot, as `iocore` reads it;
/// `None` where the path has none.
pub uninterp spec fn path_extension(path: Seq<char>) -> Option<Seq<char>>;

/// An optional text as plain values.
pub open spec fn text_view(text: Option<String>) -> Option<Seq<char>> {
    match text {
        Some(t) => Some(t@),
        None => None,
    }
}

/// An optional string slice as plain values.
pub open spec fn slice_view(text: Option<&str>) -> Option<Seq<char>> {
    match text {
        Some(t) => Some(t@),
        None => None,
    }
}

/// `iocore::Path::join` on the path that holds `base` as it is: the result
/// is worked out from the two texts alone, without a look at the disk or the
/// environment. It is what `joined_path` stands for.
#[verifier::external_body]
fn join_path(base: &str, part: &str) -> (joined: String)
    ensures
        joined@ == joined_path(base@, part@),
{
    iocore::Path::raw(base).join(part).to_string()
}

/// `iocore::Path::without_extension` on the path that holds `path` as it is:
/// the result is worked out from the text alone. It is what
/// `path_without_extension` stands for.
#[verifier::external_body]
fn without_extension(path: &str) -> (stripped: String)
    ensures
        stripped@ == path_without_extension(path@),
{
    iocore::Path::raw(path).without_extension().to_string()
}

/// `iocore::Path::name` on the path that holds `path` as it is: the result
/// is worked out from the text alone. It is what `path_file_name` stands for.
#[verifier::external_body]
fn file_name(path: &str) -> (name: String)
    ensures
        name@ == path_file_name(path@),
{
    iocore::Path::raw(path).name()
}

/// `iocore::Path::extension` on the path that holds `path` as it is: the
/// result is worked out from the text alone. It is what `path_extension`
/// stands for.
#[verifier::external_body]
fn extension_of(path: &str) -> (extension: Option<String>)
    ensures
        text_view(extension) == path_extension(path@),
{
    iocore::Path::raw(path).extension()
}

/// The name of an archive without its directory and without its extension.
pub fn archive_base_name(archive_path: &str) -> (name: String)
    ensures
        name@ == path_file_name(path_without_extension(archive_path@)),
{
    let stripped = without_extension(archive_path);
    file_name(stripped.as_str())
}

/// The place where an entry is extracted to. The root of the extraction is
/// the working directory joined with the archive's base name; the entry goes
/// to that root joined with its name, which is taken as the archive gives it.
pub fn destination_for(
    entry_name: &str,
    archive_base_name: &str,
    working_directory: &str,
) -> (path: String)
    ensures
        path@ == joined_path(joined_path(working_directory@, archive_base_name@), entry_name@),
{
    let root = join_path(working_directory, archive_base_name);
    join_path(root.as_str(), entry_name)
}

/// Why an archive cannot be created at the path that was asked for.
#[derive(Clone, Debug, PartialEq, Eq)]
pub enum OutputRefusal {
    /// The path does not end in `.7z`; the text is the extension that it has,
    /// and empty where it has none.
    UnrecognizedExtension(String),
    /// A file is at the path and overwriting was not asked for.
    AlreadyExists,
    /// A directory is at the path.
    IsFolder,
}

/// An `OutputRefusal` as plain values.
pub enum RefusalView {
    UnrecognizedExtension(Seq<char>),
    AlreadyExists,
    IsFolder,
}

impl View for OutputRefusal {
    type V = RefusalView;

    open spec fn view(&self) -> RefusalView {
        match self {
            OutputRefusal::UnrecognizedExtension(extension) => RefusalView::UnrecognizedExtension(
                extension@,
            ),
            OutputRefusal::AlreadyExists => RefusalView::AlreadyExists,
            OutputRefusal::IsFolder => RefusalView::IsFolder,
        }
    }
}

/// A check's result as plain values.
pub open spec fn judgement_view(judgement: Result<(), OutputRefusal>) -> Option<RefusalView> {
    match judgement {
        Ok(_) => None,
        Err(refusal) => Some(refusal@),
    }
}

/// The text of an extension: the extension itself, and the empty text
/// where there is none.
pub open spec fn extension_text(extension: Option<Seq<char>>) -> Seq<char> {
    match extension {
        Some(found) => found,
        None => Seq::empty(),
    }
}

/// The reason to refuse an output path, if there is one. The extension is
/// looked at first: a path whose extension is not `.7z`, or that has none,
/// is refused whatever is on disk and whether or not overwriting was asked
/// for. Then a file that is there is kept unless overwriting was asked for,
/// and a directory is never replaced.
pub open spec fn output_refusal(
    extension: Option<Seq<char>>,
    is_file: bool,
    is_directory: bool,
    force_overwrite: bool,
) -> Option<RefusalView> {
    if extension != Some(".7z"@) {
        Some(RefusalView::UnrecognizedExtension(extension_text(extension)))
    } else if is_file && !force_overwrite {
        Some(RefusalView::AlreadyExists)
    } else if is_directory {
        Some(RefusalView::IsFolder)
    } else {
        None
    }
}

/// Decides whether an archive may be created at a path with this extension,
/// given what is at the path now.
pub fn judge_output(
    extension: Option<&str>,
    is_file: bool,
    is_directory: bool,
    force_overwrite: bool,
) -> (judgement: Result<(), OutputRefusal>)
    ensures
        judgement_view(judgement) == output_refusal(
            slice_view(extension),
            is_file,
            is_directory,
            force_overwrite,
        ),
{
    match extension {
        Some(found) => {
            if !found.eq(".7z") {
                return Err(OutputRefusal::UnrecognizedExtension(found.to_string()));
            }
        },
        None => {
            return Err(OutputRefusal::UnrecognizedExtension(String::new()));
        },
    }
    if is_file && !force_overwrite {
        Err(OutputRefusal::AlreadyExists)
    } else if is_directory {
        Err(OutputRefusal::IsFolder)
    } else {
        Ok(())
    }
}

/// Decides whether an archive may be created at `output_path`, given what is
/// at the path now.
pub fn check_output(
    output_path: &str,
    is_file: bool,
    is_directory: bool,
    force_overwrite: bool,
) -> (judgement: Result<(), OutputRefusal>)
    ensures
        judgement_view(judgement) == output_refusal(
            path_extension(output_path@),
            is_file,
            is_directory,
            force_overwrite,
        ),
{
    let extension = extension_of(output_path);
    match &extension {
        Some(found) => judge_output(Some(found.as_str()), is_file, is_directory, force_overwrite),
        None => judge_output(None, is_file, is_directory, force_overwrite),
    }
}

/// A path that does not end in `.7z` is refused for its extension, whatever
/// is on disk and whether or not overwriting was asked for: this holds of
/// another extension and of none at all.
pub proof fn lemma_unrecognized_extension_is_refused(
    extension: Option<Seq<char>>,
    is_file: bool,
    is_directory: bool,
    force_overwrite: bool,
)
    requires
        extension != Some(".7z"@),
    ensures
        output_refusal(extension, is_file, is_directory, force_overwrite) == Some(
            RefusalView::UnrecognizedExtension(extension_text(extension)),
        ),
{
}

/// Only a path that ends in `.7z` is ever accepted.
pub proof fn lemma_accepted_output_ends_in_the_extension(
    extension: Option<Seq<char>>,
    is_file: bool,
    is_directory: bool,
    force_overwrite: bool,
)
    requires
        output_refusal(extension, is_file, is_directory, force_overwrite) is None,
    ensures
        extension == Some(".7z"@),
        !is_directory,
        !is_file || force_overwrite,
{
}

impl OutputRefusal {
    /// The refusal as one line of text about `output_path`.
    pub open spec fn spec_describe(self, output_path: Seq<char>) -> Seq<char> {
        match self {
            OutputRefusal::UnrecognizedExtension(extension) => output_path
                + " has an unrecognized extension "@ + extension@,
            OutputRefusal::AlreadyExists => output_path + " already exists"@,
            OutputRefusal::IsFolder => output_path + " is a folder"@,
        }
    }

    /// The refusal as one line of text about `output_path`.
    pub fn describe(&self, output_path: &str) -> (line: String)
        ensures
            line@ == self.spec_describe(output_path@),
    {
        let mut line = output_path.to_string();
        match self {
            OutputRefusal::UnrecognizedExtension(extension) => {
                line.append(" has an unrecognized extension ");
                line.append(extension.as_str());
            },
            OutputRefusal::AlreadyExists => line.append(" already exists"),
            OutputRefusal::IsFolder => line.append(" is a folder"),
        }
        line
    }
}

} // verus!
