//! The order of paths: two paths are compared component by component, as
//! the standard library compares them, so that `/dev//sda` and `/dev/sda/`
//! are the same path and `/dev/a/b` comes before `/dev/a-b`.

use vstd::prelude::*;
use vstd::string::*;
use crate::text::{chars_of, same_text, split_on, split_text_on};

verus! {

/// How one value stands to another.
#[derive(Debug, Clone, Copy, PartialEq, Eq, Structural)]
pub enum Order {
    Less,
    Equal,
    Greater,
}

/// A component of a path.
#[derive(Debug)]
pub enum PathPart {
    /// The root directory, at the start of an absolute path.
    Root,
    /// The current directory, `.` at the start of a relative path.
    Current,
    /// The parent directory, `..`.
    Parent,
    /// A name.
    Normal(String),
}

/// A component of a path, with its name as a character sequence.
pub enum PathPartModel {
    Root,
    Current,
    Parent,
    Normal(Seq<char>),
}

impl View for PathPart {
    type V = PathPartModel;

    open spec fn view(&self) -> PathPartModel {
        match self {
            PathPart::Root => PathPartModel::Root,
            PathPart::Current => PathPartModel::Current,
            PathPart::Parent => PathPartModel::Parent,
            PathPart::Normal(name) => PathPartModel::Normal(name@),
        }
    }
}

impl DeepView for PathPart {
    type V = PathPartModel;

    open spec fn deep_view(&self) -> PathPartModel {
        self@
    }
}

/// The component that a piece between two separators stands for, if it
/// stands for one: an empty piece and `.` stand for none, but for `.` as
/// the first piece of a relative path.
pub open spec fn part_of(piece: Seq<char>, first: bool, rooted: bool) -> Option<PathPartModel> {
    if piece.len() == 0 {
        None
    } else if piece == "."@ {
        if first && !rooted {
            Some(PathPartModel::Current)
        } else {
            None
        }
    } else if piece == ".."@ {
        Some(PathPartModel::Parent)
    } else {
        Some(PathPartModel::Normal(piece))
    }
}

/// The components that the pieces stand for, in order.
pub open spec fn parts_of(pieces: Seq<Seq<char>>, rooted: bool) -> Seq<PathPartModel>
    decreases pieces.len(),
{
    if pieces.len() == 0 {
        Seq::empty()
    } else {
        let before = parts_of(pieces.drop_last(), rooted);
        match part_of(pieces.last(), pieces.len() == 1, rooted) {
            Some(part) => before.push(part),
            None => before,
        }
    }
}

/// The components of a path: the root directory where the path starts with
/// a separator, then the names between the separators. Repeated separators,
/// a separator at the end and `.` inside the path count for nothing.
pub open spec fn components(path: Seq<char>) -> Seq<PathPartModel> {
    let rooted = path.len() > 0 && path[0] == '/';
    (if rooted {
        seq![PathPartModel::Root]
    } else {
        Seq::empty()
    }) + parts_of(split_on(path, '/'), rooted)
}

/// How one text stands to another, character by character; a text comes
/// before every text that it is the beginning of.
pub open spec fn text_order(a: Seq<char>, b: Seq<char>) -> Order
    decreases a.len(),
{
    if a.len() == 0 {
        if b.len() == 0 {
            Order::Equal
        } else {
            Order::Less
        }
    } else if b.len() == 0 {
        Order::Greater
    } else if a[0] < b[0] {
        Order::Less
    } else if a[0] > b[0] {
        Order::Greater
    } else {
        text_order(a.drop_first(), b.drop_first())
    }
}

/// The place of a kind of component among the kinds.
pub open spec fn part_rank(part: PathPartModel) -> int {
    match part {
        PathPartModel::Root => 0,
        PathPartModel::Current => 1,
        PathPartModel::Parent => 2,
        PathPartModel::Normal(_) => 3,
    }
}

/// How one component stands to another: by kind, and two names by their
/// text.
pub open spec fn part_order(a: PathPartModel, b: PathPartModel) -> Order {
    if part_rank(a) < part_rank(b) {
        Order::Less
    } else if part_rank(a) > part_rank(b) {
        Order::Greater
    } else {
        match (a, b) {
            (PathPartModel::Normal(x), PathPartModel::Normal(y)) => text_order(x, y),
            _ => Order::Equal,
        }
    }
}

/// How one list of components stands to another, component by component.
pub open spec fn parts_order(a: Seq<PathPartModel>, b: Seq<PathPartModel>) -> Order
    decreases a.len(),
{
    if a.len() == 0 {
        if b.len() == 0 {
            Order::Equal
        } else {
            Order::Less
        }
    } else if b.len() == 0 {
        Order::Greater
    } else {
        match part_order(a[0], b[0]) {
            Order::Equal => parts_order(a.drop_first(), b.drop_first()),
            other => other,
        }
    }
}

/// How one path stands to another.
#[verifier::opaque]
pub open spec fn path_order(a: Seq<char>, b: Seq<char>) -> Order {
    parts_order(components(a), components(b))
}

/// The opposite of an order.
pub open spec fn flipped(order: Order) -> Order {
    match order {
        Order::Less => Order::Greater,
        Order::Equal => Order::Equal,
        Order::Greater => Order::Less,
    }
}

/// Texts that stand equal are the same text, and the order of two texts
/// turns round with them.
pub proof fn lemma_text_order(a: Seq<char>, b: Seq<char>)
    ensures
        text_order(a, b) == flipped(text_order(b, a)),
        text_order(a, b) == Order::Equal <==> a == b,
    decreases a.len(),
{
    if a.len() > 0 && b.len() > 0 {
        lemma_text_order(a.drop_first(), b.drop_first());
        if a[0] == b[0] && a.drop_first() == b.drop_first() {
            assert(a.len() == b.len());
            assert forall|i: int| 0 <= i < a.len() implies a[i] == b[i] by {
                if i > 0 {
                    assert(a[i] == a.drop_first()[i - 1]);
                    assert(b[i] == b.drop_first()[i - 1]);
                }
            }
            assert(a =~= b);
        }
    }
    if a == b && a.len() > 0 {
        lemma_text_order(a.drop_first(), b.drop_first());
    }
    if a.len() == 0 && b.len() == 0 {
        assert(a =~= b);
    }
}

/// Component lists that stand equal are the same list, and the order of
/// two lists turns round with them.
pub proof fn lemma_parts_order(a: Seq<PathPartModel>, b: Seq<PathPartModel>)
    ensures
        parts_order(a, b) == flipped(parts_order(b, a)),
        parts_order(a, b) == Order::Equal <==> a == b,
    decreases a.len(),
{
    if a.len() > 0 && b.len() > 0 {
        lemma_parts_order(a.drop_first(), b.drop_first());
        match (a[0], b[0]) {
            (PathPartModel::Normal(x), PathPartModel::Normal(y)) => {
                lemma_text_order(x, y);
            },
            _ => {},
        }
        if a[0] == b[0] && a.drop_first() == b.drop_first() {
            assert(a.len() == b.len());
            assert forall|i: int| 0 <= i < a.len() implies a[i] == b[i] by {
                if i > 0 {
                    assert(a[i] == a.drop_first()[i - 1]);
                    assert(b[i] == b.drop_first()[i - 1]);
                }
            }
            assert(a =~= b);
        }
    }
    if a == b && a.len() > 0 {
        lemma_parts_order(a.drop_first(), b.drop_first());
        match a[0] {
            PathPartModel::Normal(x) => {
                lemma_text_order(x, x);
            },
            _ => {},
        }
    }
    if a.len() == 0 && b.len() == 0 {
        assert(a =~= b);
    }
}

/// The order of two paths turns round with them, and paths stand equal
/// exactly when they have the same components.
pub proof fn lemma_path_order(a: Seq<char>, b: Seq<char>)
    ensures
        path_order(a, b) == flipped(path_order(b, a)),
        path_order(a, b) == Order::Equal <==> components(a) == components(b),
{
    reveal(path_order);
    lemma_parts_order(components(a), components(b));
}

/// The components of the path.
pub fn path_components(path: &str) -> (r: Vec<PathPart>)
    ensures
        r.deep_view() == components(path@),
{
    let rooted = crate::text::is_absolute_path(path);
    let pieces = split_text_on(path, '/');
    let n: usize = pieces.len();
    let ghost all = pieces.deep_view();
    let mut out: Vec<PathPart> = Vec::new();
    if rooted {
        out.push(PathPart::Root);
    }
    let ghost head = out.deep_view();
    assert(head =~= if rooted {
        seq![PathPartModel::Root]
    } else {
        Seq::<PathPartModel>::empty()
    });
    let mut i: usize = 0;
    assert(all.take(0) =~= Seq::<Seq<char>>::empty());
    assert(out.deep_view() =~= head + parts_of(all.take(0), rooted));
    while i < n
        invariant
            i <= n,
            n == pieces.len(),
            all == pieces.deep_view(),
            out.deep_view() == head + parts_of(all.take(i as int), rooted),
        decreases n - i,
    {
        let piece = pieces[i].as_str();
        proof {
            let next = all.take(i as int + 1);
            assert(next.drop_last() =~= all.take(i as int));
            assert(next.last() == pieces@[i as int]@);
            assert(next.len() == i + 1);
        }
        let ghost shown = out.deep_view();
        if piece.unicode_len() == 0 {
        } else if same_text(piece, ".") {
            if i == 0 && !rooted {
                out.push(PathPart::Current);
                assert(out.deep_view() =~= shown.push(PathPartModel::Current));
            }
        } else if same_text(piece, "..") {
            out.push(PathPart::Parent);
            assert(out.deep_view() =~= shown.push(PathPartModel::Parent));
        } else {
            out.push(PathPart::Normal(pieces[i].clone()));
            assert(out.deep_view() =~= shown.push(PathPartModel::Normal(piece@)));
        }
        i += 1;
        assert(out.deep_view() =~= head + parts_of(all.take(i as int), rooted));
    }
    assert(all.take(n as int) =~= all);
    out
}

/// How one text stands to another.
pub fn order_texts(a: &str, b: &str) -> (r: Order)
    ensures
        r == text_order(a@, b@),
{
    let x = chars_of(a);
    let y = chars_of(b);
    let mut i: usize = 0;
    assert(a@.subrange(0, a@.len() as int) =~= a@);
    assert(b@.subrange(0, b@.len() as int) =~= b@);
    while i < x.len() && i < y.len()
        invariant
            i <= x.len(),
            i <= y.len(),
            x@ == a@,
            y@ == b@,
            text_order(a@, b@) == text_order(
                a@.subrange(i as int, a@.len() as int),
                b@.subrange(i as int, b@.len() as int),
            ),
        decreases x.len() - i,
    {
        let ghost ra = a@.subrange(i as int, a@.len() as int);
        let ghost rb = b@.subrange(i as int, b@.len() as int);
        proof {
            assert(ra[0] == x@[i as int]);
            assert(rb[0] == y@[i as int]);
            assert(ra.drop_first() =~= a@.subrange(i as int + 1, a@.len() as int));
            assert(rb.drop_first() =~= b@.subrange(i as int + 1, b@.len() as int));
        }
        if x[i] < y[i] {
            return Order::Less;
        }
        if x[i] > y[i] {
            return Order::Greater;
        }
        i += 1;
    }
    if i < y.len() {
        Order::Less
    } else if i < x.len() {
        Order::Greater
    } else {
        Order::Equal
    }
}

fn part_kind(part: &PathPart) -> (r: u8)
    ensures
        r == part_rank(part@),
{
    match part {
        PathPart::Root => 0,
        PathPart::Current => 1,
        PathPart::Parent => 2,
        PathPart::Normal(_) => 3,
    }
}

fn order_parts(a: &PathPart, b: &PathPart) -> (r: Order)
    ensures
        r == part_order(a@, b@),
{
    let ka: u8 = part_kind(a);
    let kb: u8 = part_kind(b);
    if ka < kb {
        return Order::Less;
    }
    if ka > kb {
        return Order::Greater;
    }
    match a {
        PathPart::Normal(x) => match b {
            PathPart::Normal(y) => order_texts(x.as_str(), y.as_str()),
            _ => Order::Equal,
        },
        _ => Order::Equal,
    }
}

/// How one path stands to another.
pub fn order_paths(a: &str, b: &str) -> (r: Order)
    ensures
        r == path_order(a@, b@),
{
    reveal(path_order);
    let x = path_components(a);
    let y = path_components(b);
    let ghost ca = components(a@);
    let ghost cb = components(b@);
    let mut i: usize = 0;
    assert(ca.subrange(0, ca.len() as int) =~= ca);
    assert(cb.subrange(0, cb.len() as int) =~= cb);
    assert(x.deep_view().len() == x.len());
    assert(y.deep_view().len() == y.len());
    while i < x.len() && i < y.len()
        invariant
            i <= x.len(),
            i <= y.len(),
            x.deep_view() == ca,
            y.deep_view() == cb,
            path_order(a@, b@) == parts_order(ca, cb),
            ca.len() == x.len(),
            cb.len() == y.len(),
            parts_order(ca, cb) == parts_order(
                ca.subrange(i as int, ca.len() as int),
                cb.subrange(i as int, cb.len() as int),
            ),
        decreases x.len() - i,
    {
        let ghost ra = ca.subrange(i as int, ca.len() as int);
        let ghost rb = cb.subrange(i as int, cb.len() as int);
        proof {
            assert(ra[0] == x@[i as int]@);
            assert(rb[0] == y@[i as int]@);
            assert(ra.drop_first() =~= ca.subrange(i as int + 1, ca.len() as int));
            assert(rb.drop_first() =~= cb.subrange(i as int + 1, cb.len() as int));
        }
        match order_parts(&x[i], &y[i]) {
            Order::Less => {
                return Order::Less;
            },
            Order::Greater => {
                return Order::Greater;
            },
            Order::Equal => {},
        }
        i += 1;
    }
    if i < y.len() {
        Order::Less
    } else if i < x.len() {
        Order::Greater
    } else {
        Order::Equal
    }
}

} // verus!
