use vstd::prelude::*;

use crate::text::{push_str, str_eq};

verus! {

/// The fewest insertions, deletions and substitutions of characters that turn `a`
/// into `b`.
pub open spec fn edit_distance(a: Seq<char>, b: Seq<char>) -> nat
    decreases a.len() + b.len(),
{
    if a.len() == 0 {
        b.len()
    } else if b.len() == 0 {
        a.len()
    } else {
        let delete = edit_distance(a.drop_last(), b) + 1;
        let insert = edit_distance(a, b.drop_last()) + 1;
        let substitute = edit_distance(a.drop_last(), b.drop_last()) + if a.last() == b.last() {
            0nat
        } else {
            1nat
        };
        let m = if delete <= insert {
            delete
        } else {
            insert
        };
        if m <= substitute {
            m
        } else {
            substitute
        }
    }
}

/// The Levenshtein distance of two strings, by `strsim::levenshtein`.
///
/// Claimed of it: the result is the edit distance over characters, as the crate's
/// documentation defines it.
#[verifier::external_body]
fn levenshtein(a: &str, b: &str) -> (d: usize)
    ensures
        d == edit_distance(a@, b@),
{
    strsim::levenshtein(a, b)
}

/// How `{:?}` shows a string: quoted, with `std`'s escapes.
pub uninterp spec fn debug_quoted(s: Seq<char>) -> Seq<char>;

/// The `Debug` text of a string (`format!("{:?}", s)`).
///
/// Claimed of it: the result is the name `debug_quoted` of the string; `std`'s escape
/// rules are not restated.
#[verifier::external_body]
fn debug_text(s: &str) -> (r: String)
    ensures
        r@ == debug_quoted(s@),
{
    format!("{:?}", s)
}

/// The `Debug` text of a list of names: `[`, the quoted names joined by `, `, `]`.
pub open spec fn debug_list(names: Seq<Seq<char>>) -> Seq<char> {
    "["@ + debug_items(names, names.len()) + "]"@
}

/// The quoted first `n` names, joined by `, `.
pub open spec fn debug_items(names: Seq<Seq<char>>, n: nat) -> Seq<char>
    decreases n,
{
    if n == 0 {
        Seq::empty()
    } else if n == 1 {
        debug_quoted(names[0])
    } else {
        debug_items(names, (n - 1) as nat) + ", "@ + debug_quoted(names[n - 1])
    }
}

/// The `Debug` text of a list of names.
pub fn debug_names(names: &Vec<String>) -> (r: String)
    ensures
        r@ == debug_list(names@.map_values(|s: String| s@)),
{
    let ghost views = names@.map_values(|s: String| s@);
    let mut r = "[".to_string();
    let ghost head = r@;
    let mut i: usize = 0;
    while i < names.len()
        invariant
            views == names@.map_values(|s: String| s@),
            i <= names@.len(),
            r@ == head + debug_items(views, i as nat),
        decreases names@.len() - i,
    {
        if i > 0 {
            push_str(&mut r, ", ");
        }
        let q = debug_text(names[i].as_str());
        push_str(&mut r, q.as_str());
        assert(views[i as int] == names@[i as int]@);
        assert(r@ =~= head + debug_items(views, (i + 1) as nat));
        i = i + 1;
    }
    push_str(&mut r, "]");
    r
}

/// Which of the stored images (given by their file stems; `None` where a file has no
/// stem) is named exactly `image_name`: the first such.
pub fn find_exact_file_match(stems: &Vec<Option<String>>, image_name: &str) -> (r: Option<usize>)
    ensures
        match r {
            Some(i) => {
                &&& i < stems@.len()
                &&& stems@[i as int] matches Some(s) && s@ == image_name@
                &&& forall|j: int| 0 <= j < i ==> !(#[trigger] stems@[j] matches Some(t) && t@ == image_name@)
            },
            None => forall|j: int|
                0 <= j < stems@.len() ==> !(#[trigger] stems@[j] matches Some(t) && t@ == image_name@),
        },
{
    let mut i: usize = 0;
    while i < stems.len()
        invariant
            i <= stems@.len(),
            forall|j: int| 0 <= j < i ==> !(#[trigger] stems@[j] matches Some(t) && t@ == image_name@),
        decreases stems@.len() - i,
    {
        match &stems[i] {
            Some(s) => {
                if str_eq(s.as_str(), image_name) {
                    return Some(i);
                }
            },
            None => {},
        }
        i = i + 1;
    }
    None
}

/// A stored image is close to the asked name when fewer than three edits separate them.
pub open spec fn is_close(stem: Option<String>, name: Seq<char>) -> bool {
    stem matches Some(s) && edit_distance(name, s@) < 3
}

/// The positions, in order, of the stored images whose stems are close to `name`.
pub open spec fn close_positions(stems: Seq<Option<String>>, name: Seq<char>, n: nat) -> Seq<usize>
    decreases n,
{
    if n == 0 {
        Seq::empty()
    } else {
        close_positions(stems, name, (n - 1) as nat) + if is_close(stems[n - 1], name) {
            seq![(n - 1) as usize]
        } else {
            Seq::empty()
        }
    }
}

/// The positions, in order, of the stored images (given by their stems; `None` where a
/// stem is missing or not text) whose names are within two edits of `image_name`.
pub fn get_similar_files(stems: &Vec<Option<String>>, image_name: &str) -> (r: Vec<usize>)
    ensures
        r@ == close_positions(stems@, image_name@, stems@.len()),
{
    let mut r: Vec<usize> = Vec::new();
    let mut i: usize = 0;
    while i < stems.len()
        invariant
            i <= stems@.len(),
            r@ == close_positions(stems@, image_name@, i as nat),
        decreases stems@.len() - i,
    {
        let ghost before = r@;
        match &stems[i] {
            Some(s) => {
                if levenshtein(image_name, s.as_str()) < 3 {
                    r.push(i);
                    assert(r@ =~= before + seq![i]);
                } else {
                    assert(before + Seq::<usize>::empty() =~= before);
                }
            },
            None => {
                assert(before + Seq::<usize>::empty() =~= before);
            },
        }
        i = i + 1;
    }
    r
}

/// What to answer when no image has the asked name, from the close names found.
pub enum SimilarFilesResponse {
    /// Several images are close: the user is asked which one, with this text.
    Suggest(String),
    /// No image is close: the user is told so, with this text.
    NotFound(String),
    /// Exactly one image is close: it is sent.
    UseFirst,
}

/// What to answer when no image has the asked name, from the stems of the close images.
pub fn response_for_zero_or_multiple_similar_files(close_names: &Vec<String>) -> (r:
    SimilarFilesResponse)
    ensures
        close_names@.len() > 1 ==> (r matches SimilarFilesResponse::Suggest(t) && t@
            == "File not found. Did you mean one of these? "@ + debug_list(
            close_names@.map_values(|s: String| s@),
        )),
        close_names@.len() == 0 ==> (r matches SimilarFilesResponse::NotFound(t) && t@
            == "No file with that name was found"@),
        close_names@.len() == 1 ==> r is UseFirst,
{
    if close_names.len() > 1 {
        let mut t = "File not found. Did you mean one of these? ".to_string();
        let list = debug_names(close_names);
        push_str(&mut t, list.as_str());
        SimilarFilesResponse::Suggest(t)
    } else if close_names.len() == 0 {
        SimilarFilesResponse::NotFound("No file with that name was found".to_string())
    } else {
        SimilarFilesResponse::UseFirst
    }
}

/// The file name of an added image: its name, a dot and the extension of the upload.
pub fn image_file_name(name: &str, extension: &str) -> (s: String)
    ensures
        s@ == name@ + "."@ + extension@,
{
    let mut s = name.to_string();
    push_str(&mut s, ".");
    push_str(&mut s, extension);
    s
}

/// The answer after saving an image, from whether the write succeeded.
pub fn save_reply(saved: bool) -> (s: String)
    ensures
        s@ == if saved {
            "Image successfully saved."@
        } else {
            "Something went wrong while attempting to save that image."@
        },
{
    if saved {
        "Image successfully saved.".to_string()
    } else {
        "Something went wrong while attempting to save that image.".to_string()
    }
}

/// The answer after deleting an image, from whether the deletion succeeded.
pub fn delete_reply(deleted: bool) -> (s: String)
    ensures
        s@ == if deleted {
            "Image successfully deleted."@
        } else {
            "Something went wrong while attempting to delete that image."@
        },
{
    if deleted {
        "Image successfully deleted.".to_string()
    } else {
        "Something went wrong while attempting to delete that image.".to_string()
    }
}

/// The answer when an added image's file name is taken.
pub fn already_exists_reply(file_name: &str) -> (s: String)
    ensures
        s@ == "An image named "@ + debug_quoted(file_name@) + " already exists"@,
{
    let mut s = "An image named ".to_string();
    let q = debug_text(file_name);
    push_str(&mut s, q.as_str());
    push_str(&mut s, " already exists");
    s
}

/// The answer when an updated image does not exist.
pub fn missing_image_reply(file_name: &str) -> (s: String)
    ensures
        s@ == "No image named "@ + debug_quoted(file_name@) + " exists."@,
{
    let mut s = "No image named ".to_string();
    let q = debug_text(file_name);
    push_str(&mut s, q.as_str());
    push_str(&mut s, " exists.");
    s
}

/// The answer when an upload is missing.
pub fn no_attachment_reply() -> (s: String)
    ensures
        s@ == "You've gotta include an image."@,
{
    "You've gotta include an image.".to_string()
}

/// The list of the stored images, by their stems.
pub fn stock_reply(stems: &Vec<String>) -> (s: String)
    ensures
        s@ == "Here's what we've got in stock: "@ + debug_list(stems@.map_values(|x: String| x@)),
{
    let mut s = "Here's what we've got in stock: ".to_string();
    let list = debug_names(stems);
    push_str(&mut s, list.as_str());
    s
}

} // verus!
