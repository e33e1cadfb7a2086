//! The text of `goal get` (the goal, its deliverables and comments, and the
//! subtree below it) and of a recurring schedule, as lines of styled
//! segments for the terminal.

use vstd::prelude::*;
use crate::goal::{Goal, GoalChildNode, GoalNode, GoalStatus, GoalTreeItem};
use crate::goals::{node_type_icon, node_type_icon_spec};
use crate::stream_event::Style;
use crate::text::{
    chars_of, char_count, flatten_newlines, i64_text, int_text, join_strings, join_with, owned,
    string_from_range, truncate_ellipsis, views,
};

verus! {

/// The kind of a deliverable.
#[derive(Clone, Copy, Debug, PartialEq, Eq, Structural)]
pub enum DeliverableType {
    Folder,
    Document,
    File,
    Link,
}

/// The backend's name for a deliverable kind.
pub open spec fn deliverable_type_name(t: DeliverableType) -> Seq<char> {
    match t {
        DeliverableType::Folder => "folder"@,
        DeliverableType::Document => "document"@,
        DeliverableType::File => "file"@,
        DeliverableType::Link => "link"@,
    }
}

impl DeliverableType {
    pub fn as_str(self) -> (r: &'static str)
        ensures
            r@ == deliverable_type_name(self),
    {
        match self {
            DeliverableType::Folder => "folder",
            DeliverableType::Document => "document",
            DeliverableType::File => "file",
            DeliverableType::Link => "link",
        }
    }
}

/// What the tree shows of a deliverable.
#[derive(Debug)]
pub struct Deliverable {
    pub id: String,
    pub display_name: String,
    pub node_type: DeliverableType,
    pub link_url: Option<String>,
    pub content: Option<String>,
}

/// What the tree shows of a comment's author.
#[derive(Debug)]
pub struct CommentAuthor {
    pub name: String,
    pub is_ai_agent: bool,
}

/// What the tree shows of a comment.
#[derive(Debug)]
pub struct Comment {
    pub content: String,
    pub author: CommentAuthor,
    pub created_at: String,
}

/// A piece of a printed line: text in a style, or a goal's status, which
/// the terminal shows as its coloured label.
#[derive(Debug, PartialEq, Eq)]
pub enum Segment {
    Text { text: String, style: Style },
    Status { is_completed: bool, status: Option<GoalStatus> },
}

/// A [`Segment`] with its text as characters.
pub enum SegModel {
    Text { text: Seq<char>, style: Style },
    Status { is_completed: bool, status: Option<GoalStatus> },
}

impl View for Segment {
    type V = SegModel;

    open spec fn view(&self) -> SegModel {
        match self {
            Segment::Text { text, style } => SegModel::Text { text: text@, style: *style },
            Segment::Status { is_completed, status } => SegModel::Status {
                is_completed: *is_completed,
                status: *status,
            },
        }
    }
}

/// A printed line as segment models.
pub open spec fn line_view(line: Vec<Segment>) -> Seq<SegModel> {
    line@.map_values(|s: Segment| s@)
}

/// Printed lines as segment models.
pub open spec fn lines_view(lines: Seq<Vec<Segment>>) -> Seq<Seq<SegModel>> {
    lines.map_values(|l: Vec<Segment>| line_view(l))
}

pub open spec fn plain(t: Seq<char>) -> SegModel {
    SegModel::Text { text: t, style: Style::Plain }
}

pub open spec fn dim(t: Seq<char>) -> SegModel {
    SegModel::Text { text: t, style: Style::Dimmed }
}

pub open spec fn bold(t: Seq<char>) -> SegModel {
    SegModel::Text { text: t, style: Style::Bold }
}

/// The first ten characters of a timestamp: its date.
pub open spec fn date_part(s: Seq<char>) -> Seq<char> {
    if s.len() <= 10 {
        s
    } else {
        s.take(10)
    }
}

/// The elements of an optional list.
pub open spec fn opt_seq<T>(o: Option<Vec<T>>) -> Option<Seq<T>> {
    match o {
        Some(v) => Some(v@),
        None => None,
    }
}

// ---------------------------------------------------------------------------
// Building lines
// ---------------------------------------------------------------------------

pub(crate) fn seg(text: String, style: Style) -> (r: Segment)
    ensures
        r@ == (SegModel::Text { text: text@, style }),
{
    Segment::Text { text, style }
}

pub(crate) fn push_seg(line: &mut Vec<Segment>, s: Segment)
    ensures
        line_view(*final(line)) == line_view(*old(line)).push(s@),
{
    let ghost before = line@;
    line.push(s);
    assert(line@.map_values(|s: Segment| s@) =~= before.map_values(|s: Segment| s@).push(s@));
}

pub(crate) fn push_line(out: &mut Vec<Vec<Segment>>, line: Vec<Segment>)
    ensures
        lines_view(final(out)@) == lines_view(old(out)@).push(line_view(line)),
{
    let ghost before = out@;
    let ghost lv = line_view(line);
    out.push(line);
    assert(out@.map_values(|l: Vec<Segment>| line_view(l)) =~= before.map_values(
        |l: Vec<Segment>| line_view(l),
    ).push(lv));
}

/// A line of one segment.
pub(crate) fn line1(a: Segment) -> (r: Vec<Segment>)
    ensures
        line_view(r) == seq![a@],
{
    let mut l: Vec<Segment> = Vec::new();
    proof {
        assert(line_view(l) =~= Seq::<SegModel>::empty());
    }
    push_seg(&mut l, a);
    assert(line_view(l) =~= seq![a@]);
    l
}

/// No lines yet.
pub(crate) fn no_lines() -> (r: Vec<Vec<Segment>>)
    ensures
        lines_view(r@) == Seq::<Seq<SegModel>>::empty(),
{
    let out: Vec<Vec<Segment>> = Vec::new();
    assert(lines_view(out@) =~= Seq::<Seq<SegModel>>::empty());
    out
}

pub(crate) fn line2(a: Segment, b: Segment) -> (r: Vec<Segment>)
    ensures
        line_view(r) == seq![a@, b@],
{
    let mut l: Vec<Segment> = Vec::new();
    proof {
        assert(line_view(l) =~= Seq::<SegModel>::empty());
    }
    push_seg(&mut l, a);
    push_seg(&mut l, b);
    assert(line_view(l) =~= seq![a@, b@]);
    l
}

pub(crate) fn line3(a: Segment, b: Segment, c: Segment) -> (r: Vec<Segment>)
    ensures
        line_view(r) == seq![a@, b@, c@],
{
    let mut l = line2(a, b);
    push_seg(&mut l, c);
    assert(line_view(l) =~= seq![a@, b@, c@]);
    l
}

pub(crate) fn line4(a: Segment, b: Segment, c: Segment, d: Segment) -> (r: Vec<Segment>)
    ensures
        line_view(r) == seq![a@, b@, c@, d@],
{
    let mut l = line3(a, b, c);
    push_seg(&mut l, d);
    assert(line_view(l) =~= seq![a@, b@, c@, d@]);
    l
}

fn line5(a: Segment, b: Segment, c: Segment, d: Segment, e: Segment) -> (r: Vec<Segment>)
    ensures
        line_view(r) == seq![a@, b@, c@, d@, e@],
{
    let mut l = line4(a, b, c, d);
    push_seg(&mut l, e);
    assert(line_view(l) =~= seq![a@, b@, c@, d@, e@]);
    l
}

pub(crate) fn cat(a: &str, b: &str) -> (r: String)
    ensures
        r@ == a@ + b@,
{
    let mut s = owned(a);
    s.append(b);
    s
}

fn date_of(s: &str) -> (r: String)
    ensures
        r@ == date_part(s@),
{
    let v = chars_of(s);
    if v.len() <= 10 {
        owned(s)
    } else {
        let r = string_from_range(&v, 0, 10);
        assert(v@.subrange(0, 10) =~= s@.take(10));
        r
    }
}

// ---------------------------------------------------------------------------
// Deliverables and comments
// ---------------------------------------------------------------------------

/// `<label>: <note>`, the note dimmed, for a missing or empty list.
pub open spec fn note_line(indent: Seq<char>, label: Seq<char>, note: Seq<char>) -> Seq<SegModel> {
    seq![plain(indent + "   "@), dim(label), plain(": "@), dim(note)]
}

/// `<label>:` above the items of a list.
pub open spec fn heading_line(indent: Seq<char>, label: Seq<char>) -> Seq<SegModel> {
    seq![plain(indent + "   "@), dim(label), plain(":"@)]
}

/// The lines of one deliverable: its icon and name, then its link or the
/// start of its document.
pub open spec fn deliverable_item_lines(indent: Seq<char>, d: Deliverable) -> Seq<Seq<SegModel>> {
    let head = seq![
        plain(
            indent + "     - "@ + node_type_icon_spec(deliverable_type_name(d.node_type)) + " "@
                + d.display_name@,
        ),
    ];
    let detail = match d.node_type {
        DeliverableType::Link => match d.link_url {
            Some(l) => seq![seq![plain("       "@ + l@)]],
            None => Seq::empty(),
        },
        DeliverableType::Document => match d.content {
            Some(c) => seq![seq![plain("       "@ + truncate_ellipsis(c@, 30))]],
            None => Seq::empty(),
        },
        _ => Seq::empty(),
    };
    seq![head] + detail
}

pub open spec fn deliverable_items(indent: Seq<char>, ds: Seq<Deliverable>) -> Seq<Seq<SegModel>>
    decreases ds.len(),
{
    if ds.len() == 0 {
        Seq::empty()
    } else {
        deliverable_items(indent, ds.drop_last()) + deliverable_item_lines(indent, ds.last())
    }
}

/// The deliverables block: a failure note when they could not be fetched,
/// a note when there are none, else a heading and the items.
pub open spec fn deliverable_lines(indent: Seq<char>, ds: Option<Seq<Deliverable>>) -> Seq<
    Seq<SegModel>,
> {
    match ds {
        None => seq![note_line(indent, "成果物"@, "(取得失敗)"@)],
        Some(s) => if s.len() == 0 {
            seq![note_line(indent, "成果物"@, "(なし)"@)]
        } else {
            seq![heading_line(indent, "成果物"@)] + deliverable_items(indent, s)
        },
    }
}

/// A comment's author, marked when an AI agent wrote it.
pub open spec fn author_label(a: CommentAuthor) -> Seq<char> {
    if a.is_ai_agent {
        a.name@ + " (AI)"@
    } else {
        a.name@
    }
}

/// The line of one comment: its text on one line and cut to 30
/// characters, its author and its date.
pub open spec fn comment_item_line(indent: Seq<char>, c: Comment) -> Seq<SegModel> {
    seq![
        plain(indent + "     - \""@ + truncate_ellipsis(flatten_newlines(c.content@), 30) + "\" "@),
        dim(author_label(c.author)),
        plain(" "@),
        dim(date_part(c.created_at@)),
    ]
}

pub open spec fn comment_items(indent: Seq<char>, cs: Seq<Comment>) -> Seq<Seq<SegModel>>
    decreases cs.len(),
{
    if cs.len() == 0 {
        Seq::empty()
    } else {
        comment_items(indent, cs.drop_last()).push(comment_item_line(indent, cs.last()))
    }
}

/// The comments block, laid out as the deliverables block.
pub open spec fn comment_lines(indent: Seq<char>, cs: Option<Seq<Comment>>) -> Seq<Seq<SegModel>> {
    match cs {
        None => seq![note_line(indent, "コメント"@, "(取得失敗)"@)],
        Some(s) => if s.len() == 0 {
            seq![note_line(indent, "コメント"@, "(なし)"@)]
        } else {
            seq![heading_line(indent, "コメント"@)] + comment_items(indent, s)
        },
    }
}

fn note_line_of(indent: &str, label: &str, note: &str) -> (r: Vec<Segment>)
    ensures
        line_view(r) == note_line(indent@, label@, note@),
{
    line4(
        seg(cat(indent, "   "), Style::Plain),
        seg(owned(label), Style::Dimmed),
        seg(owned(": "), Style::Plain),
        seg(owned(note), Style::Dimmed),
    )
}

fn heading_line_of(indent: &str, label: &str) -> (r: Vec<Segment>)
    ensures
        line_view(r) == heading_line(indent@, label@),
{
    line3(
        seg(cat(indent, "   "), Style::Plain),
        seg(owned(label), Style::Dimmed),
        seg(owned(":"), Style::Plain),
    )
}

fn push_deliverable_item(out: &mut Vec<Vec<Segment>>, indent: &str, d: &Deliverable)
    ensures
        lines_view(final(out)@) == lines_view(old(out)@) + deliverable_item_lines(indent@, *d),
{
    let ghost before = lines_view(out@);
    let mut head = cat(indent, "     - ");
    head.append(node_type_icon(d.node_type.as_str()));
    head.append(" ");
    head.append(d.display_name.as_str());
    let mut l: Vec<Segment> = Vec::new();
    proof {
        assert(line_view(l) =~= Seq::<SegModel>::empty());
    }
    push_seg(&mut l, seg(head, Style::Plain));
    push_line(out, l);
    match d.node_type {
        DeliverableType::Link => {
            if let Some(link) = &d.link_url {
                let mut m: Vec<Segment> = Vec::new();
                proof {
                    assert(line_view(m) =~= Seq::<SegModel>::empty());
                }
                push_seg(&mut m, seg(cat("       ", link.as_str()), Style::Plain));
                push_line(out, m);
            }
        },
        DeliverableType::Document => {
            if let Some(content) = &d.content {
                let t = crate::notification::truncate_chars(content.as_str(), 30);
                let mut m: Vec<Segment> = Vec::new();
                proof {
                    assert(line_view(m) =~= Seq::<SegModel>::empty());
                }
                push_seg(&mut m, seg(cat("       ", t.as_str()), Style::Plain));
                push_line(out, m);
            }
        },
        _ => {},
    }
    assert(lines_view(out@) =~= before + deliverable_item_lines(indent@, *d));
}

fn push_deliverable_lines(out: &mut Vec<Vec<Segment>>, indent: &str, ds: &Option<Vec<Deliverable>>)
    ensures
        lines_view(final(out)@) == lines_view(old(out)@) + deliverable_lines(indent@, opt_seq(*ds)),
{
    let ghost before = lines_view(out@);
    match ds {
        None => {
            push_line(out, note_line_of(indent, "成果物", "(取得失敗)"));
            assert(lines_view(out@) =~= before + deliverable_lines(indent@, opt_seq(*ds)));
        },
        Some(v) => {
            if v.len() == 0 {
                push_line(out, note_line_of(indent, "成果物", "(なし)"));
                assert(lines_view(out@) =~= before + deliverable_lines(indent@, opt_seq(*ds)));
            } else {
                push_line(out, heading_line_of(indent, "成果物"));
                let ghost start = lines_view(out@);
                let mut i: usize = 0;
                while i < v.len()
                    invariant
                        i <= v@.len(),
                        lines_view(out@) == start + deliverable_items(indent@, v@.take(i as int)),
                    decreases v@.len() - i,
                {
                    proof {
                        assert(v@.take(i + 1).drop_last() =~= v@.take(i as int));
                        assert(v@.take(i + 1).last() == v@[i as int]);
                    }
                    push_deliverable_item(out, indent, &v[i]);
                    i = i + 1;
                    proof {
                        assert(lines_view(out@) =~= start + deliverable_items(
                            indent@,
                            v@.take(i as int),
                        ));
                    }
                }
                assert(v@.take(v@.len() as int) =~= v@);
                assert(lines_view(out@) =~= before + deliverable_lines(indent@, opt_seq(*ds)));
            }
        },
    }
}

fn comment_item_line_of(indent: &str, c: &Comment) -> (r: Vec<Segment>)
    ensures
        line_view(r) == comment_item_line(indent@, *c),
{
    let t = crate::chat::truncate_content(c.content.as_str(), 30);
    let mut first = cat(indent, "     - \"");
    first.append(t.as_str());
    first.append("\" ");
    let author = if c.author.is_ai_agent {
        cat(c.author.name.as_str(), " (AI)")
    } else {
        owned(c.author.name.as_str())
    };
    line4(
        seg(first, Style::Plain),
        seg(author, Style::Dimmed),
        seg(owned(" "), Style::Plain),
        seg(date_of(c.created_at.as_str()), Style::Dimmed),
    )
}

fn push_comment_lines(out: &mut Vec<Vec<Segment>>, indent: &str, cs: &Option<Vec<Comment>>)
    ensures
        lines_view(final(out)@) == lines_view(old(out)@) + comment_lines(indent@, opt_seq(*cs)),
{
    let ghost before = lines_view(out@);
    match cs {
        None => {
            push_line(out, note_line_of(indent, "コメント", "(取得失敗)"));
            assert(lines_view(out@) =~= before + comment_lines(indent@, opt_seq(*cs)));
        },
        Some(v) => {
            if v.len() == 0 {
                push_line(out, note_line_of(indent, "コメント", "(なし)"));
                assert(lines_view(out@) =~= before + comment_lines(indent@, opt_seq(*cs)));
            } else {
                push_line(out, heading_line_of(indent, "コメント"));
                let ghost start = lines_view(out@);
                let mut i: usize = 0;
                while i < v.len()
                    invariant
                        i <= v@.len(),
                        lines_view(out@) == start + comment_items(indent@, v@.take(i as int)),
                    decreases v@.len() - i,
                {
                    proof {
                        assert(v@.take(i + 1).drop_last() =~= v@.take(i as int));
                        assert(v@.take(i + 1).last() == v@[i as int]);
                    }
                    push_line(out, comment_item_line_of(indent, &v[i]));
                    i = i + 1;
                    proof {
                        assert(lines_view(out@) =~= start + comment_items(
                            indent@,
                            v@.take(i as int),
                        ));
                    }
                }
                assert(v@.take(v@.len() as int) =~= v@);
                assert(lines_view(out@) =~= before + comment_lines(indent@, opt_seq(*cs)));
            }
        },
    }
}

// ---------------------------------------------------------------------------
// The tree
// ---------------------------------------------------------------------------

/// A subtree goal's own lines: `└─ <title> [<status>]` shifted left by
/// three columns under the indent, then its ID.
pub open spec fn child_head_lines(g: GoalTreeItem, indent: Seq<char>) -> Seq<Seq<SegModel>> {
    let shift = if indent.len() < 3 {
        indent.len()
    } else {
        3
    };
    seq![
        seq![
            plain(indent.subrange(shift as int, indent.len() as int) + "└─ "@),
            bold(g.title@),
            plain(" ["@),
            SegModel::Status { is_completed: g.is_completed, status: g.status },
            plain("]"@),
        ],
        seq![plain(indent + "   "@), dim("ID"@), plain(": "@), dim(g.id@)],
    ]
}

/// The lines of a subtree goal at this indent and of the goals below it,
/// four columns further in; the deliverable and comment blocks appear when
/// they were asked for.
pub open spec fn node_lines(
    n: GoalChildNode<Deliverable, Comment>,
    indent: Seq<char>,
    with_deliverable: bool,
    with_comment: bool,
) -> Seq<Seq<SegModel>>
    decreases n, 0nat,
{
    child_head_lines(n.goal, indent) + (if with_deliverable {
        deliverable_lines(indent, opt_seq(n.deliverables))
    } else {
        Seq::empty()
    }) + (if with_comment {
        comment_lines(indent, opt_seq(n.comments))
    } else {
        Seq::empty()
    }) + match n.children {
        Some(cs) => forest_lines(cs@, indent + "    "@, with_deliverable, with_comment),
        None => Seq::empty(),
    }
}

/// The lines of a list of subtree goals, one after the other.
pub open spec fn forest_lines(
    ns: Seq<GoalChildNode<Deliverable, Comment>>,
    indent: Seq<char>,
    with_deliverable: bool,
    with_comment: bool,
) -> Seq<Seq<SegModel>>
    decreases ns, 1nat,
{
    if ns.len() == 0 {
        Seq::empty()
    } else {
        forest_lines(ns.drop_last(), indent, with_deliverable, with_comment) + node_lines(
            ns.last(),
            indent,
            with_deliverable,
            with_comment,
        )
    }
}

fn push_node_lines(
    out: &mut Vec<Vec<Segment>>,
    n: &GoalChildNode<Deliverable, Comment>,
    indent: &str,
    with_deliverable: bool,
    with_comment: bool,
)
    ensures
        lines_view(final(out)@) == lines_view(old(out)@) + node_lines(
            *n,
            indent@,
            with_deliverable,
            with_comment,
        ),
    decreases *n,
{
    let ghost before = lines_view(out@);
    let v = chars_of(indent);
    let shift: usize = if v.len() < 3 {
        v.len()
    } else {
        3
    };
    let mut lead = string_from_range(&v, shift, v.len());
    lead.append("└─ ");
    push_line(
        out,
        line5(
            seg(lead, Style::Plain),
            seg(owned(n.goal.title.as_str()), Style::Bold),
            seg(owned(" ["), Style::Plain),
            Segment::Status { is_completed: n.goal.is_completed, status: n.goal.status },
            seg(owned("]"), Style::Plain),
        ),
    );
    push_line(
        out,
        line4(
            seg(cat(indent, "   "), Style::Plain),
            seg(owned("ID"), Style::Dimmed),
            seg(owned(": "), Style::Plain),
            seg(owned(n.goal.id.as_str()), Style::Dimmed),
        ),
    );
    let ghost after_head = lines_view(out@);
    assert(after_head =~= before + child_head_lines(n.goal, indent@));
    if with_deliverable {
        push_deliverable_lines(out, indent, &n.deliverables);
    }
    if with_comment {
        push_comment_lines(out, indent, &n.comments);
    }
    match &n.children {
        Some(cs) => {
            let inner = cat(indent, "    ");
            push_forest_lines(out, cs, inner.as_str(), with_deliverable, with_comment);
        },
        None => {},
    }
    assert(lines_view(out@) =~= before + node_lines(*n, indent@, with_deliverable, with_comment));
}

fn push_forest_lines(
    out: &mut Vec<Vec<Segment>>,
    ns: &Vec<GoalChildNode<Deliverable, Comment>>,
    indent: &str,
    with_deliverable: bool,
    with_comment: bool,
)
    ensures
        lines_view(final(out)@) == lines_view(old(out)@) + forest_lines(
            ns@,
            indent@,
            with_deliverable,
            with_comment,
        ),
    decreases ns@,
{
    let ghost start = lines_view(out@);
    let mut i: usize = 0;
    while i < ns.len()
        invariant
            i <= ns@.len(),
            lines_view(out@) == start + forest_lines(
                ns@.take(i as int),
                indent@,
                with_deliverable,
                with_comment,
            ),
        decreases ns@.len() - i,
    {
        proof {
            assert(ns@.take(i + 1).drop_last() =~= ns@.take(i as int));
            assert(ns@.take(i + 1).last() == ns@[i as int]);
        }
        push_node_lines(out, &ns[i], indent, with_deliverable, with_comment);
        i = i + 1;
        proof {
            assert(lines_view(out@) =~= start + forest_lines(
                ns@.take(i as int),
                indent@,
                with_deliverable,
                with_comment,
            ));
        }
    }
    assert(ns@.take(ns@.len() as int) =~= ns@);
}

/// A present, non-empty text.
pub open spec fn filled(o: Option<String>) -> bool {
    match o {
        Some(t) => t@.len() > 0,
        None => false,
    }
}

/// The title line and ID line of the goal at the top of `goal get`.
pub open spec fn title_id_lines(g: Goal) -> Seq<Seq<SegModel>> {
    seq![
        seq![
            bold(g.title@),
            plain(" ["@),
            SegModel::Status { is_completed: g.is_completed, status: g.status },
            plain("]"@),
        ],
        seq![plain("   "@), dim("ID"@), plain(": "@), dim(g.id@)],
    ]
}

/// The completion criteria, when the goal has some.
pub open spec fn description_lines(g: Goal) -> Seq<Seq<SegModel>> {
    if filled(g.description) {
        seq![seq![plain("   "@), dim("完了条件"@), plain(": "@ + g.description->0@)]]
    } else {
        Seq::empty()
    }
}

/// The parent goal's ID, when there is a parent.
pub open spec fn parent_lines(g: Goal) -> Seq<Seq<SegModel>> {
    match g.parent_id {
        Some(p) => seq![seq![plain("   "@), dim("Parent"@), plain(": "@), dim(p@)]],
        None => Seq::empty(),
    }
}

/// The owner's name, when the goal has an owner.
pub open spec fn owner_lines(g: Goal) -> Seq<Seq<SegModel>> {
    match g.owner {
        Some(o) => seq![seq![plain("   "@), dim("Owner"@), plain(": "@ + o.name@)]],
        None => Seq::empty(),
    }
}

/// The due date, when the goal has one.
pub open spec fn due_lines(g: Goal) -> Seq<Seq<SegModel>> {
    match g.due_date {
        Some(d) => seq![seq![plain("   "@), dim("Due"@), plain(": "@ + date_part(d@))]],
        None => Seq::empty(),
    }
}

/// The body under its heading, after an empty line, when there is one.
pub open spec fn body_lines(g: Goal) -> Seq<Seq<SegModel>> {
    if filled(g.body) {
        seq![seq![plain("\n   "@), dim("Body"@)], seq![plain(g.body->0@)]]
    } else {
        Seq::empty()
    }
}

/// The goal's own lines at the top of `goal get`: title and status, ID,
/// then the completion criteria, parent, owner, due date and body that it
/// has.
pub open spec fn goal_head_lines(g: Goal) -> Seq<Seq<SegModel>> {
    title_id_lines(g) + description_lines(g) + parent_lines(g) + owner_lines(g) + due_lines(g)
        + body_lines(g)
}

/// All the lines of `goal get`: the goal's own lines, its deliverables and
/// comments where they were fetched, then its subtree, whose goals show
/// deliverables and comments exactly when the goal itself does.
pub open spec fn tree_lines(t: GoalNode<Deliverable, Comment>) -> Seq<Seq<SegModel>> {
    let wd = t.deliverables is Some;
    let wc = t.comments is Some;
    goal_head_lines(t.goal) + (if wd {
        deliverable_lines(""@, opt_seq(t.deliverables))
    } else {
        Seq::empty()
    }) + (if wc {
        comment_lines(""@, opt_seq(t.comments))
    } else {
        Seq::empty()
    }) + match t.children {
        Some(cs) => forest_lines(cs@, "    "@, wd, wc),
        None => Seq::empty(),
    }
}

fn push_labeled(out: &mut Vec<Vec<Segment>>, label: &str, value: String, value_style: Style)
    ensures
        lines_view(final(out)@) == lines_view(old(out)@).push(
            seq![plain("   "@), dim(label@), plain(": "@), SegModel::Text { text: value@, style: value_style }],
        ),
{
    push_line(
        out,
        line4(
            seg(owned("   "), Style::Plain),
            seg(owned(label), Style::Dimmed),
            seg(owned(": "), Style::Plain),
            seg(value, value_style),
        ),
    );
}

fn push_labeled_text(out: &mut Vec<Vec<Segment>>, label: &str, value: &str)
    ensures
        lines_view(final(out)@) == lines_view(old(out)@).push(
            seq![plain("   "@), dim(label@), plain(": "@ + value@)],
        ),
{
    push_line(
        out,
        line3(
            seg(owned("   "), Style::Plain),
            seg(owned(label), Style::Dimmed),
            seg(cat(": ", value), Style::Plain),
        ),
    );
}

fn push_title_id(out: &mut Vec<Vec<Segment>>, g: &Goal)
    ensures
        lines_view(final(out)@) == lines_view(old(out)@) + title_id_lines(*g),
{
    let ghost before = lines_view(out@);
    push_line(
        out,
        line4(
            seg(owned(g.title.as_str()), Style::Bold),
            seg(owned(" ["), Style::Plain),
            Segment::Status { is_completed: g.is_completed, status: g.status },
            seg(owned("]"), Style::Plain),
        ),
    );
    push_labeled(out, "ID", owned(g.id.as_str()), Style::Dimmed);
    assert(lines_view(out@) =~= before + title_id_lines(*g));
}

fn push_description(out: &mut Vec<Vec<Segment>>, g: &Goal)
    ensures
        lines_view(final(out)@) == lines_view(old(out)@) + description_lines(*g),
{
    let ghost before = lines_view(out@);
    if let Some(desc) = &g.description {
        if char_count(desc.as_str()) > 0 {
            push_labeled_text(out, "完了条件", desc.as_str());
        }
    }
    assert(lines_view(out@) =~= before + description_lines(*g));
}

fn push_parent_owner_due(out: &mut Vec<Vec<Segment>>, g: &Goal)
    ensures
        lines_view(final(out)@) == lines_view(old(out)@) + parent_lines(*g) + owner_lines(*g)
            + due_lines(*g),
{
    let ghost before = lines_view(out@);
    if let Some(p) = &g.parent_id {
        push_labeled(out, "Parent", owned(p.as_str()), Style::Dimmed);
    }
    assert(lines_view(out@) =~= before + parent_lines(*g));
    let ghost l1 = lines_view(out@);
    if let Some(o) = &g.owner {
        push_labeled_text(out, "Owner", o.name.as_str());
    }
    assert(lines_view(out@) =~= l1 + owner_lines(*g));
    let ghost l2 = lines_view(out@);
    if let Some(d) = &g.due_date {
        let day = date_of(d.as_str());
        push_labeled_text(out, "Due", day.as_str());
    }
    assert(lines_view(out@) =~= l2 + due_lines(*g));
    assert(lines_view(out@) =~= before + parent_lines(*g) + owner_lines(*g) + due_lines(*g));
}

fn push_body(out: &mut Vec<Vec<Segment>>, g: &Goal)
    ensures
        lines_view(final(out)@) == lines_view(old(out)@) + body_lines(*g),
{
    let ghost before = lines_view(out@);
    if let Some(body) = &g.body {
        if char_count(body.as_str()) > 0 {
            push_line(
                out,
                line2(seg(owned("\n   "), Style::Plain), seg(owned("Body"), Style::Dimmed)),
            );
            let mut b: Vec<Segment> = Vec::new();
            proof {
                assert(line_view(b) =~= Seq::<SegModel>::empty());
            }
            push_seg(&mut b, seg(owned(body.as_str()), Style::Plain));
            push_line(out, b);
        }
    }
    assert(lines_view(out@) =~= before + body_lines(*g));
}

fn push_goal_head(out: &mut Vec<Vec<Segment>>, g: &Goal)
    ensures
        lines_view(final(out)@) == lines_view(old(out)@) + goal_head_lines(*g),
{
    let ghost before = lines_view(out@);
    push_title_id(out, g);
    push_description(out, g);
    push_parent_owner_due(out, g);
    push_body(out, g);
    assert(lines_view(out@) =~= before + goal_head_lines(*g));
}

/// The lines `goal get` prints for the tree.
pub fn goal_detail_lines(tree: &GoalNode<Deliverable, Comment>) -> (r: Vec<Vec<Segment>>)
    ensures
        lines_view(r@) == tree_lines(*tree),
{
    let mut out: Vec<Vec<Segment>> = Vec::new();
    proof {
        assert(lines_view(out@) =~= Seq::<Seq<SegModel>>::empty());
    }
    push_goal_head(&mut out, &tree.goal);
    let wd = tree.deliverables.is_some();
    let wc = tree.comments.is_some();
    if wd {
        push_deliverable_lines(&mut out, "", &tree.deliverables);
    }
    if wc {
        push_comment_lines(&mut out, "", &tree.comments);
    }
    match &tree.children {
        Some(cs) => push_forest_lines(&mut out, cs, "    ", wd, wc),
        None => {},
    }
    proof {
        assert(lines_view(out@) =~= tree_lines(*tree));
    }
    out
}

// ---------------------------------------------------------------------------
// Recurring schedules
// ---------------------------------------------------------------------------

/// A goal's recurring schedule as the backend returns it.
#[derive(Debug)]
pub struct RecurringGoal {
    pub id: String,
    pub objective_id: String,
    pub description: String,
    pub pattern: Option<String>,
    pub recurrence_type: Option<String>,
    pub interval: Option<i32>,
    pub days_of_week: Vec<String>,
    pub days_of_month: Vec<i32>,
    pub nth_week: Option<i32>,
    pub is_last_day: Option<bool>,
    pub repeat_from_completion: Option<bool>,
    pub end_date: Option<String>,
}

/// `   <label>: <value>`, the label dimmed.
pub open spec fn field_line(label: Seq<char>, value: Seq<char>) -> Seq<SegModel> {
    seq![plain("   "@), dim(label), plain(": "@ + value)]
}

/// The line of an optional text field, when it is present.
pub open spec fn opt_field(label: Seq<char>, value: Option<String>) -> Seq<Seq<SegModel>> {
    match value {
        Some(v) => seq![field_line(label, v@)],
        None => Seq::empty(),
    }
}

/// The line of an optional number field, when it is present.
pub open spec fn opt_number(label: Seq<char>, value: Option<i32>) -> Seq<Seq<SegModel>> {
    match value {
        Some(n) => seq![field_line(label, int_text(n as int))],
        None => Seq::empty(),
    }
}

/// A `yes` line for a flag that is set.
pub open spec fn yes_field(label: Seq<char>, value: Option<bool>) -> Seq<Seq<SegModel>> {
    if value == Some(true) {
        seq![field_line(label, "yes"@)]
    } else {
        Seq::empty()
    }
}

/// The numbers as text.
pub open spec fn number_texts(s: Seq<i32>) -> Seq<Seq<char>> {
    s.map_values(|n: i32| int_text(n as int))
}

/// The first lines of a schedule: its description, ID, goal, and basic
/// pattern, custom type and interval where set.
pub open spec fn recurring_head_lines(g: RecurringGoal) -> Seq<Seq<SegModel>> {
    seq![
        seq![plain(g.description@)],
        field_line("ID"@, g.id@),
        field_line("Goal"@, g.objective_id@),
    ] + opt_field("Pattern"@, g.pattern) + opt_field("Recurrence type"@, g.recurrence_type)
        + opt_number("Interval"@, g.interval)
}

/// The day selectors of a schedule, where set.
pub open spec fn recurring_day_lines(g: RecurringGoal) -> Seq<Seq<SegModel>> {
    (if g.days_of_week@.len() > 0 {
        seq![field_line("Days of week"@, join_with(views(g.days_of_week@), ", "@))]
    } else {
        Seq::empty()
    }) + (if g.days_of_month@.len() > 0 {
        seq![field_line("Days of month"@, join_with(number_texts(g.days_of_month@), ", "@))]
    } else {
        Seq::empty()
    }) + opt_number("Nth week"@, g.nth_week)
}

/// The remaining options of a schedule, where set.
pub open spec fn recurring_tail_lines(g: RecurringGoal) -> Seq<Seq<SegModel>> {
    yes_field("Last day of month"@, g.is_last_day) + yes_field(
        "Repeat from completion"@,
        g.repeat_from_completion,
    ) + opt_field("End date"@, g.end_date)
}

/// What `goal recurring get` and `set` print of a schedule.
pub open spec fn recurring_lines(g: RecurringGoal) -> Seq<Seq<SegModel>> {
    recurring_head_lines(g) + recurring_day_lines(g) + recurring_tail_lines(g)
}

fn push_field(out: &mut Vec<Vec<Segment>>, label: &str, value: &str)
    ensures
        lines_view(final(out)@) == lines_view(old(out)@).push(field_line(label@, value@)),
{
    push_labeled_text(out, label, value);
}

fn push_opt_field(out: &mut Vec<Vec<Segment>>, label: &str, value: &Option<String>)
    ensures
        lines_view(final(out)@) == lines_view(old(out)@) + opt_field(label@, *value),
{
    let ghost before = lines_view(out@);
    if let Some(v) = value {
        push_field(out, label, v.as_str());
    }
    assert(lines_view(out@) =~= before + opt_field(label@, *value));
}

fn push_opt_number(out: &mut Vec<Vec<Segment>>, label: &str, value: Option<i32>)
    ensures
        lines_view(final(out)@) == lines_view(old(out)@) + opt_number(label@, value),
{
    let ghost before = lines_view(out@);
    if let Some(n) = value {
        let t = i64_text(n as i64);
        push_field(out, label, t.as_str());
    }
    assert(lines_view(out@) =~= before + opt_number(label@, value));
}

fn push_yes_field(out: &mut Vec<Vec<Segment>>, label: &str, value: Option<bool>)
    ensures
        lines_view(final(out)@) == lines_view(old(out)@) + yes_field(label@, value),
{
    let ghost before = lines_view(out@);
    if value == Some(true) {
        push_field(out, label, "yes");
    }
    assert(lines_view(out@) =~= before + yes_field(label@, value));
}

fn number_strings(v: &Vec<i32>) -> (r: Vec<String>)
    ensures
        views(r@) == number_texts(v@),
{
    let mut out: Vec<String> = Vec::new();
    let mut i: usize = 0;
    while i < v.len()
        invariant
            i <= v@.len(),
            views(out@) == number_texts(v@.take(i as int)),
        decreases v@.len() - i,
    {
        let t = i64_text(v[i] as i64);
        let ghost before = out@;
        out.push(t);
        proof {
            assert(views(out@) =~= views(before).push(t@));
            assert(number_texts(v@.take(i + 1)) =~= number_texts(v@.take(i as int)).push(
                int_text(v@[i as int] as int),
            ));
        }
        i = i + 1;
    }
    assert(v@.take(v@.len() as int) =~= v@);
    out
}

fn push_recurring_head(out: &mut Vec<Vec<Segment>>, g: &RecurringGoal)
    ensures
        lines_view(final(out)@) == lines_view(old(out)@) + recurring_head_lines(*g),
{
    let ghost before = lines_view(out@);
    let mut first: Vec<Segment> = Vec::new();
    proof {
        assert(line_view(first) =~= Seq::<SegModel>::empty());
    }
    push_seg(&mut first, seg(owned(g.description.as_str()), Style::Plain));
    push_line(out, first);
    push_field(out, "ID", g.id.as_str());
    push_field(out, "Goal", g.objective_id.as_str());
    push_opt_field(out, "Pattern", &g.pattern);
    push_opt_field(out, "Recurrence type", &g.recurrence_type);
    push_opt_number(out, "Interval", g.interval);
    assert(lines_view(out@) =~= before + recurring_head_lines(*g));
}

fn push_recurring_days(out: &mut Vec<Vec<Segment>>, g: &RecurringGoal)
    ensures
        lines_view(final(out)@) == lines_view(old(out)@) + recurring_day_lines(*g),
{
    let ghost before = lines_view(out@);
    if g.days_of_week.len() > 0 {
        let days = join_strings(&g.days_of_week, ", ");
        push_field(out, "Days of week", days.as_str());
    }
    if g.days_of_month.len() > 0 {
        let texts = number_strings(&g.days_of_month);
        let days = join_strings(&texts, ", ");
        push_field(out, "Days of month", days.as_str());
    }
    push_opt_number(out, "Nth week", g.nth_week);
    assert(lines_view(out@) =~= before + recurring_day_lines(*g));
}

fn push_recurring_tail(out: &mut Vec<Vec<Segment>>, g: &RecurringGoal)
    ensures
        lines_view(final(out)@) == lines_view(old(out)@) + recurring_tail_lines(*g),
{
    let ghost before = lines_view(out@);
    push_yes_field(out, "Last day of month", g.is_last_day);
    push_yes_field(out, "Repeat from completion", g.repeat_from_completion);
    push_opt_field(out, "End date", &g.end_date);
    assert(lines_view(out@) =~= before + recurring_tail_lines(*g));
}

/// The lines printed for a recurring schedule.
pub fn recurring_goal_lines(g: &RecurringGoal) -> (r: Vec<Vec<Segment>>)
    ensures
        lines_view(r@) == recurring_lines(*g),
{
    let mut out: Vec<Vec<Segment>> = Vec::new();
    proof {
        assert(lines_view(out@) =~= Seq::<Seq<SegModel>>::empty());
    }
    push_recurring_head(&mut out, g);
    push_recurring_days(&mut out, g);
    push_recurring_tail(&mut out, g);
    proof {
        assert(lines_view(out@) =~= recurring_lines(*g));
    }
    out
}

} // verus!
