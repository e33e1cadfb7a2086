//! Deliverables: id lists, content sources, move targets and what an `add`
//! creates.

use vstd::prelude::*;
use crate::paths::{file_name_of, path_file_name};
use crate::text::{csv_items, csv_split, owned, views};

verus! {

/// The trimmed, non-empty ids of a comma-separated `--ids` value.
pub fn split_ids(csv: &str) -> (r: Vec<String>)
    ensures
        views(r@) == csv_items(csv@),
{
    csv_split(csv)
}

/// `--ids` must name at least one deliverable.
pub fn ensure_ids(ids: &Vec<String>) -> (r: Result<(), String>)
    ensures
        r is Ok <==> ids@.len() > 0,
        r matches Err(e) ==> e@ == "--ids must contain at least one ID"@,
{
    if ids.len() == 0 {
        return Err(owned("--ids must contain at least one ID"));
    }
    Ok(())
}

/// The final component of a path as text (`Path::file_name`).
pub fn filename_string(path: &str) -> (r: Option<String>)
    ensures
        match r {
            Some(n) => file_name_of(path@) == Some(n@),
            None => file_name_of(path@) is None,
        },
{
    path_file_name(path)
}

/// Where the content of `deliverable update` comes from.
#[derive(Debug)]
pub enum ContentSource {
    /// The text given inline.
    Inline(String),
    /// The file at this path.
    File(String),
}

/// Exactly one of `--content` and `--content-file` must be given.
pub fn read_content(inline: &Option<String>, file: &Option<String>) -> (r: Result<ContentSource, String>)
    ensures
        match (*inline, *file) {
            (Some(s), None) => r matches Ok(ContentSource::Inline(t)) && t@ == s@,
            (None, Some(p)) => r matches Ok(ContentSource::File(t)) && t@ == p@,
            (Some(_), Some(_)) => r matches Err(e) && e@ == "Specify only one of --content or --content-file"@,
            (None, None) => r matches Err(e) && e@ == "Specify --content or --content-file"@,
        },
{
    match (inline, file) {
        (Some(s), None) => Ok(ContentSource::Inline(s.clone())),
        (None, Some(p)) => Ok(ContentSource::File(p.clone())),
        (Some(_), Some(_)) => Err(owned("Specify only one of --content or --content-file")),
        (None, None) => Err(owned("Specify --content or --content-file")),
    }
}

/// Where `deliverable move` puts a deliverable: the top level with
/// `--root`, else the given parent; one of the two is required.
pub fn move_target(parent: &Option<String>, root: bool) -> (r: Result<Option<String>, String>)
    ensures
        parent is None && !root ==> (r matches Err(e) && e@ == "Specify --parent <ID> or --root."@),
        root ==> r == Ok::<Option<String>, String>(None),
        !root && parent is Some ==> r == Ok::<Option<String>, String>(*parent),
{
    if parent.is_none() && !root {
        return Err(owned("Specify --parent <ID> or --root."));
    }
    if root {
        Ok(None)
    } else {
        match parent {
            Some(p) => Ok(Some(p.clone())),
            None => Ok(None),
        }
    }
}

/// What `deliverable add` creates.
#[derive(Debug)]
pub enum AddPlan {
    /// A document with this name and inline text.
    Document { name: String, content: String },
    /// A document with this name, its text read from the file.
    DocumentFromFile { name: String, path: String },
    /// A link with this name.
    Link { name: String, url: String },
    /// An uploaded file, named as given or by the upload.
    File { path: String, name: Option<String> },
}

/// The plan of `deliverable add`: the first of `--content`,
/// `--content-file`, `--link-url` and `--file` that is given decides; a
/// document or link needs a name, which a content file can lend.
pub fn plan_add(
    content: &Option<String>,
    content_file: &Option<String>,
    link_url: &Option<String>,
    file: &Option<String>,
    name: &Option<String>,
) -> (r: Result<AddPlan, String>)
    ensures
        match (*content, *content_file, *link_url, *file) {
            (Some(text), _, _, _) => match *name {
                Some(n) => r matches Ok(AddPlan::Document { name: x, content: c }) && x@ == n@
                    && c@ == text@,
                None => r matches Err(e) && e@ == "--name is required when using --content"@,
            },
            (None, Some(p), _, _) => match *name {
                Some(n) => r matches Ok(AddPlan::DocumentFromFile { name: x, path: q }) && x@
                    == n@ && q@ == p@,
                None => match file_name_of(p@) {
                    Some(f) => r matches Ok(AddPlan::DocumentFromFile { name: x, path: q }) && x@
                        == f && q@ == p@,
                    None => r matches Err(e) && e@ == "Cannot derive --name from path "@ + p@,
                },
            },
            (None, None, Some(u), _) => match *name {
                Some(n) => r matches Ok(AddPlan::Link { name: x, url: y }) && x@ == n@ && y@ == u@,
                None => r matches Err(e) && e@ == "--name is required when using --link-url"@,
            },
            (None, None, None, Some(p)) => r matches Ok(AddPlan::File { path: q, name: x }) && q@
                == p@ && x == *name,
            (None, None, None, None) => r matches Err(e) && e@
                == "Specify one of --content, --content-file, --link-url, or --file"@,
        },
{
    if let Some(text) = content {
        return match name {
            Some(n) => Ok(AddPlan::Document { name: n.clone(), content: text.clone() }),
            None => Err(owned("--name is required when using --content")),
        };
    }
    if let Some(p) = content_file {
        let display = match name {
            Some(n) => n.clone(),
            None => match filename_string(p.as_str()) {
                Some(f) => f,
                None => {
                    let mut e = owned("Cannot derive --name from path ");
                    e.append(p.as_str());
                    return Err(e);
                },
            },
        };
        return Ok(AddPlan::DocumentFromFile { name: display, path: p.clone() });
    }
    if let Some(u) = link_url {
        return match name {
            Some(n) => Ok(AddPlan::Link { name: n.clone(), url: u.clone() }),
            None => Err(owned("--name is required when using --link-url")),
        };
    }
    if let Some(p) = file {
        return Ok(
            AddPlan::File {
                path: p.clone(),
                name: match name {
                    Some(n) => Some(n.clone()),
                    None => None,
                },
            },
        );
    }
    Err(owned("Specify one of --content, --content-file, --link-url, or --file"))
}

} // verus!
