//! The tree builder: reconstructs the nested node structure (sections,
//! blocks, tables, polylines) from the flat atom sequence, by recursive
//! descent over atom positions.
use crate::atom::clone_string;
use crate::atom::Atom;
use crate::atom::AtomV;
use crate::value::Value;
use crate::value::ValueV;
use crate::ParseError;
use crate::ParseResult;
use vstd::prelude::*;

verus! {

broadcast use vstd::std_specs::vec::group_vec_axioms;

/// One structural unit: a container (sections, blocks, tables, polylines,
/// and inserts with following attributes) holds child nodes and the
/// terminator node that closed it; a leaf holds atoms only.
///
/// `code` is the node-starting group code (0, or 9 for header variables),
/// `node_type` that atom's value; `atoms` are exactly the atoms between
/// this node's type atom and the next node-starting atom.
#[derive(Debug, PartialEq)]
pub struct Node {
    pub node_type: String,
    pub code: i16,
    pub atoms: Vec<Atom>,
    pub nodes: Vec<Node>,
    pub end: Option<Box<Node>>,
}

/// Mathematical model of a [`Node`].
#[verifier::ext_equal]
pub struct NodeV {
    pub node_type: Seq<char>,
    pub code: i16,
    pub atoms: Seq<AtomV>,
    pub nodes: Seq<NodeV>,
    pub end: Option<Box<NodeV>>,
}

pub open spec fn spec_node_view(n: Node) -> NodeV
    decreases n, 1int,
{
    NodeV {
        node_type: n.node_type@,
        code: n.code,
        atoms: n.atoms.deep_view(),
        nodes: spec_nodes_view(n.nodes@),
        end: match n.end {
            Some(b) => Some(Box::new(spec_node_view(*b))),
            None => None,
        },
    }
}

pub open spec fn spec_nodes_view(ns: Seq<Node>) -> Seq<NodeV>
    decreases ns, 0int,
{
    if ns.len() == 0 {
        Seq::empty()
    } else {
        seq![spec_node_view(ns[0])] + spec_nodes_view(ns.drop_first())
    }
}

impl View for Node {
    type V = NodeV;

    open spec fn view(&self) -> NodeV {
        spec_node_view(*self)
    }
}

pub proof fn lemma_nodes_view_index(ns: Seq<Node>)
    ensures
        spec_nodes_view(ns).len() == ns.len(),
        forall|i: int|
            0 <= i < ns.len() ==> #[trigger] spec_nodes_view(ns)[i] == spec_node_view(ns[i]),
    decreases ns.len(),
{
    if ns.len() > 0 {
        lemma_nodes_view_index(ns.drop_first());
        assert forall|i: int|
            0 <= i < ns.len() implies #[trigger] spec_nodes_view(ns)[i] == spec_node_view(
            ns[i],
        ) by {
            if i > 0 {
                assert(spec_nodes_view(ns)[i] == spec_nodes_view(ns.drop_first())[i - 1]);
                assert(ns.drop_first()[i - 1] == ns[i]);
            }
        }
    }
}

pub proof fn lemma_nodes_view_push(ns: Seq<Node>, n: Node)
    ensures
        spec_nodes_view(ns.push(n)) == spec_nodes_view(ns) + seq![spec_node_view(n)],
    decreases ns.len(),
{
    if ns.len() == 0 {
        reveal_with_fuel(spec_nodes_view, 3);
        assert(ns.push(n)[0] == n);
        assert(ns.push(n).drop_first() =~= Seq::<Node>::empty());
        assert(spec_nodes_view(ns.push(n)) =~= spec_nodes_view(ns) + seq![spec_node_view(n)]);
    } else {
        lemma_nodes_view_push(ns.drop_first(), n);
        assert(ns.push(n)[0] == ns[0]);
        assert(ns.push(n).drop_first() =~= ns.drop_first().push(n));
        assert(seq![spec_node_view(ns[0])] + (spec_nodes_view(ns.drop_first()) + seq![
            spec_node_view(n),
        ]) =~= spec_nodes_view(ns) + seq![spec_node_view(n)]);
    }
}

// ---------------------------------------------------------------------
// structural predicates
/// A position starts a node iff its atom's code is 0 (entity, section or
/// table marker) or 9 (named header variable).
pub open spec fn is_node_start_code(code: i16) -> bool {
    code == 0 || code == 9
}

pub open spec fn spec_starts_dollar(t: Seq<char>) -> bool {
    t.len() > 0 && t[0] == '$'
}

pub open spec fn spec_contains_end(t: Seq<char>) -> bool {
    exists|i: int|
        0 <= i && i + 3 <= t.len() && #[trigger] t[i] == 'E' && t[i + 1] == 'N' && t[i + 2] == 'D'
}

/// A node type ends its enclosing container iff it contains `END` and does
/// not begin with `$` (a header variable such as `$ENDCAPS` never does).
pub open spec fn spec_is_terminator(t: Seq<char>) -> bool {
    !spec_starts_dollar(t) && spec_contains_end(t)
}

/// A `$`-prefixed name, whatever it contains, is never a terminator:
/// parsing continues past such a header variable as an ordinary node.
pub proof fn lemma_dollar_name_never_terminates(t: Seq<char>)
    requires
        t.len() > 0,
        t[0] == '$',
    ensures
        !spec_is_terminator(t),
{
}

/// A node is a container iff its type is one of the four container types,
/// or it is an insert whose attribute-follows flag (code 66) is 1.
pub open spec fn spec_is_container(n: NodeV) -> bool {
    ||| n.node_type == "SECTION"@
    ||| n.node_type == "BLOCK"@
    ||| n.node_type == "TABLE"@
    ||| n.node_type == "POLYLINE"@
    ||| (n.node_type == "INSERT"@ && exists|i: int|
        0 <= i < n.atoms.len() && #[trigger] n.atoms[i].code == 66 && n.atoms[i].value
            == ValueV::I16(1i16))
}

// ---------------------------------------------------------------------
// the recursive-descent parse, as spec functions
/// First node-starting position at or after `from`, or the length.
pub open spec fn spec_find_node_start(atoms: Seq<AtomV>, from: int) -> int
    decreases atoms.len() - from,
{
    if from < atoms.len() {
        if 0 <= from && is_node_start_code(atoms[from].code) {
            from
        } else {
            spec_find_node_start(atoms, from + 1)
        }
    } else {
        atoms.len() as int
    }
}

/// A leaf node at `start`: its atoms run to the next node-starting
/// position; with no such position the stream is malformed.
pub open spec fn spec_parse_element(
    atoms: Seq<AtomV>,
    node_type: Seq<char>,
    code: i16,
    start: int,
) -> Option<(NodeV, int)> {
    let end = spec_find_node_start(atoms, start);
    if end == atoms.len() {
        None
    } else {
        Some(
            (
                NodeV {
                    node_type,
                    code,
                    atoms: atoms.subrange(start, end),
                    nodes: Seq::empty(),
                    end: None,
                },
                end,
            ),
        )
    }
}

/// The result of parsing a run of sibling nodes: the siblings, the node
/// that ended the run, the position after it, whether the run was ended by
/// the top-level `EOF` marker (then not consumed), and whether every
/// nested container was closed by a proper terminator.
#[verifier::ext_equal]
pub struct NodesAcc {
    pub nodes: Seq<NodeV>,
    pub end: NodeV,
    pub pos: int,
    pub eof: bool,
    pub clean: bool,
}

/// The node the `EOF` marker atom stands for.
pub open spec fn spec_eof_node(a: AtomV) -> NodeV {
    NodeV { node_type: "EOF"@, code: a.code, atoms: Seq::empty(), nodes: Seq::empty(), end: None }
}

/// One node at `start`: its type atom, its own atoms, and, for a
/// container, children parsed until a terminator. The boolean reports that
/// every nested container was closed by a proper terminator.
pub open spec fn spec_parse_node(atoms: Seq<AtomV>, start: int) -> Option<(NodeV, int, bool)>
    decreases atoms.len() - start, 0int,
{
    if 0 <= start < atoms.len() && is_node_start_code(atoms[start].code) {
        match spec_parse_element(atoms, atoms[start].raw, atoms[start].code, start + 1) {
            Some((node, pos)) => if spec_is_container(node) {
                let cpos = if start < pos <= atoms.len() {
                    pos
                } else {
                    start + 1
                };
                match spec_parse_nodes(atoms, cpos) {
                    Some(acc) => Some(
                        (
                            NodeV { nodes: acc.nodes, end: Some(Box::new(acc.end)), ..node },
                            acc.pos,
                            acc.clean && !acc.eof,
                        ),
                    ),
                    None => None,
                }
            } else {
                Some((node, pos, true))
            },
            None => None,
        }
    } else {
        None
    }
}

/// Sibling nodes from `start` up to a terminator, or up to the `EOF`
/// marker where no terminator comes. Anything else is malformed.
pub open spec fn spec_parse_nodes(atoms: Seq<AtomV>, start: int) -> Option<NodesAcc>
    decreases atoms.len() - start, 1int,
{
    if 0 <= start < atoms.len() && is_node_start_code(atoms[start].code) {
        match spec_parse_node(atoms, start) {
            Some((node, end, nclean)) => if spec_is_terminator(node.node_type) {
                Some(
                    NodesAcc {
                        nodes: Seq::empty(),
                        end: node,
                        pos: end,
                        eof: false,
                        clean: nclean,
                    },
                )
            } else {
                let next = if start < end <= atoms.len() {
                    end
                } else {
                    start + 1
                };
                match spec_parse_nodes(atoms, next) {
                    Some(acc) => Some(
                        NodesAcc {
                            nodes: seq![node] + acc.nodes,
                            end: acc.end,
                            pos: acc.pos,
                            eof: acc.eof,
                            clean: nclean && acc.clean,
                        },
                    ),
                    None => None,
                }
            },
            None => if atoms[start].value == ValueV::String("EOF"@) {
                Some(
                    NodesAcc {
                        nodes: Seq::empty(),
                        end: spec_eof_node(atoms[start]),
                        pos: start,
                        eof: true,
                        clean: true,
                    },
                )
            } else {
                None
            },
        }
    } else {
        None
    }
}

// ---------------------------------------------------------------------
// flattening: every atom of a tree, in document order
/// The type atom a node re-emits: its node-starting code and its type.
pub open spec fn spec_type_atom(n: NodeV) -> AtomV {
    AtomV { code: n.code, raw: n.node_type, value: ValueV::String(n.node_type) }
}

/// Every atom of the node, in document order: the type atom, the node's
/// own atoms, the children's atoms, then the end node's.
pub open spec fn spec_flat(n: NodeV) -> Seq<AtomV>
    decreases n, 1int,
{
    seq![spec_type_atom(n)] + n.atoms + spec_flat_seq(n.nodes) + (match n.end {
        Some(e) => spec_flat(*e),
        None => Seq::empty(),
    })
}

pub open spec fn spec_flat_seq(ns: Seq<NodeV>) -> Seq<AtomV>
    decreases ns, 0int,
{
    if ns.len() == 0 {
        Seq::empty()
    } else {
        spec_flat(ns[0]) + spec_flat_seq(ns.drop_first())
    }
}

// ---------------------------------------------------------------------
// bounds of the parse positions
proof fn lemma_find_node_start_bounds(atoms: Seq<AtomV>, from: int)
    requires
        0 <= from <= atoms.len(),
    ensures
        from <= spec_find_node_start(atoms, from) <= atoms.len(),
        spec_find_node_start(atoms, from) < atoms.len() ==> is_node_start_code(
            atoms[spec_find_node_start(atoms, from)].code,
        ),
    decreases atoms.len() - from,
{
    if from < atoms.len() && !is_node_start_code(atoms[from].code) {
        lemma_find_node_start_bounds(atoms, from + 1);
    }
}

proof fn lemma_parse_node_pos(atoms: Seq<AtomV>, start: int)
    requires
        spec_parse_node(atoms, start) matches Some((n, pos, c)),
    ensures
        start < spec_parse_node(atoms, start)->Some_0.1 <= atoms.len(),
    decreases atoms.len() - start, 0int,
{
    lemma_find_node_start_bounds(atoms, start + 1);
    let pos1 = spec_find_node_start(atoms, start + 1);
    match spec_parse_element(atoms, atoms[start].raw, atoms[start].code, start + 1) {
        Some((node, pos)) => {
            if spec_is_container(node) {
                lemma_parse_nodes_pos(atoms, pos1);
            }
        },
        None => (),
    }
}

proof fn lemma_parse_nodes_pos(atoms: Seq<AtomV>, start: int)
    requires
        spec_parse_nodes(atoms, start) matches Some(acc),
    ensures
        start <= spec_parse_nodes(atoms, start)->Some_0.pos <= atoms.len(),
        spec_parse_nodes(atoms, start)->Some_0.eof ==> spec_parse_nodes(atoms, start)->Some_0.pos
            < atoms.len(),
    decreases atoms.len() - start, 1int,
{
    match spec_parse_node(atoms, start) {
        Some((node, end, nclean)) => {
            lemma_parse_node_pos(atoms, start);
            if !spec_is_terminator(node.node_type) {
                lemma_parse_nodes_pos(atoms, end);
            }
        },
        None => (),
    }
}

// ---------------------------------------------------------------------
// reconstruction: no atom is lost or duplicated
/// Node-starting atoms carry their raw line as their value; the tokenizer
/// gives every atom this shape.
pub open spec fn atoms_wt(atoms: Seq<AtomV>) -> bool {
    forall|i: int|
        0 <= i < atoms.len() && is_node_start_code(#[trigger] atoms[i].code)
            ==> atoms[i].value == ValueV::String(atoms[i].raw)
}

/// A parsed node flattens back to exactly the atom slice it was parsed
/// from: a container's own atoms are disjoint from its descendants', and
/// their concatenation in document order is the original slice.
pub proof fn lemma_parse_node_reconstructs(atoms: Seq<AtomV>, start: int)
    requires
        atoms_wt(atoms),
        spec_parse_node(atoms, start) matches Some((n, pos, clean)) && clean,
    ensures
        start < spec_parse_node(atoms, start)->Some_0.1 <= atoms.len(),
        spec_flat(spec_parse_node(atoms, start)->Some_0.0) == atoms.subrange(
            start,
            spec_parse_node(atoms, start)->Some_0.1,
        ),
    decreases atoms.len() - start, 0int,
{
    lemma_parse_node_pos(atoms, start);
    lemma_find_node_start_bounds(atoms, start + 1);
    let a0 = atoms[start];
    let pos1 = spec_find_node_start(atoms, start + 1);
    let (elem, _) = spec_parse_element(atoms, a0.raw, a0.code, start + 1)->Some_0;
    assert(spec_type_atom(elem) == a0);
    if spec_is_container(elem) {
        let acc = spec_parse_nodes(atoms, pos1)->Some_0;
        lemma_parse_nodes_reconstructs(atoms, pos1);
        let n = spec_parse_node(atoms, start)->Some_0.0;
        assert(!acc.eof);
        assert(*Box::new(acc.end) == acc.end);
        assert(spec_flat(n) =~= seq![a0] + atoms.subrange(start + 1, pos1) + (spec_flat_seq(
            acc.nodes,
        ) + spec_flat(acc.end)));
        assert(seq![a0] + atoms.subrange(start + 1, pos1) + (spec_flat_seq(acc.nodes)
            + spec_flat(acc.end)) =~= atoms.subrange(start, acc.pos));
    } else {
        let n = spec_parse_node(atoms, start)->Some_0.0;
        assert(spec_flat_seq(n.nodes) =~= Seq::<AtomV>::empty());
        assert(spec_flat(n) =~= seq![a0] + atoms.subrange(start + 1, pos1));
        assert(seq![a0] + atoms.subrange(start + 1, pos1) =~= atoms.subrange(start, pos1));
    }
}

/// A parsed sibling run, with every nested container properly terminated,
/// flattens back to exactly the atom slice it consumed (the top `EOF`
/// marker atom included).
pub proof fn lemma_parse_nodes_reconstructs(atoms: Seq<AtomV>, start: int)
    requires
        atoms_wt(atoms),
        spec_parse_nodes(atoms, start) matches Some(acc) && acc.clean,
    ensures
        ({
            let acc = spec_parse_nodes(atoms, start)->Some_0;
            &&& start <= acc.pos <= atoms.len()
            &&& acc.eof ==> acc.pos < atoms.len()
            &&& spec_flat_seq(acc.nodes) + spec_flat(acc.end) == atoms.subrange(
                start,
                acc.pos + if acc.eof {
                    1int
                } else {
                    0int
                },
            )
        }),
    decreases atoms.len() - start, 1int,
{
    lemma_parse_nodes_pos(atoms, start);
    let acc = spec_parse_nodes(atoms, start)->Some_0;
    match spec_parse_node(atoms, start) {
        Some((node, end, nclean)) => {
            lemma_parse_node_pos(atoms, start);
            if spec_is_terminator(node.node_type) {
                lemma_parse_node_reconstructs(atoms, start);
                assert(spec_flat_seq(acc.nodes) =~= Seq::<AtomV>::empty());
                assert(Seq::<AtomV>::empty() + spec_flat(node) =~= spec_flat(node));
            } else {
                lemma_parse_node_reconstructs(atoms, start);
                let acc2 = spec_parse_nodes(atoms, end)->Some_0;
                lemma_parse_nodes_reconstructs(atoms, end);
                assert(acc.nodes[0] == node);
                assert(acc.nodes.drop_first() =~= acc2.nodes);
                assert(spec_flat_seq(acc.nodes) == spec_flat(node) + spec_flat_seq(acc2.nodes));
                let adj: int = if acc.eof {
                    1int
                } else {
                    0int
                };
                assert(spec_flat(node) + spec_flat_seq(acc2.nodes) + spec_flat(acc2.end)
                    =~= spec_flat(node) + (spec_flat_seq(acc2.nodes) + spec_flat(acc2.end)));
                assert(atoms.subrange(start, end) + atoms.subrange(end, acc.pos + adj)
                    =~= atoms.subrange(start, acc.pos + adj));
            }
        },
        None => {
            let a0 = atoms[start];
            assert(a0.value == ValueV::String(a0.raw));
            assert(a0.value == ValueV::String("EOF"@));
            assert(a0.raw == "EOF"@);
            assert(spec_type_atom(acc.end) == a0);
            assert(spec_flat_seq(Seq::<NodeV>::empty()) =~= Seq::<AtomV>::empty());
            assert(acc.end.nodes == Seq::<NodeV>::empty() && acc.end.atoms == Seq::<
                AtomV,
            >::empty() && acc.end.end is None);
            assert(spec_flat(acc.end) =~= seq![a0]);
            assert(spec_flat_seq(acc.nodes) =~= Seq::<AtomV>::empty());
            assert(Seq::<AtomV>::empty() + seq![a0] =~= atoms.subrange(start, start + 1));
        },
    }
}

/// Atoms whose values are the typed forms of their raw lines (what the
/// tokenizer yields) satisfy [`atoms_wt`]: node-starting codes lie outside
/// every numeric range, so their values are their raw lines as strings.
pub proof fn lemma_well_typed_implies_wt(atoms: Seq<AtomV>)
    requires
        forall|i: int|
            0 <= i < atoms.len() ==> crate::value::spec_typed_value(
                #[trigger] atoms[i].code,
                atoms[i].raw,
            ) == Some(atoms[i].value),
    ensures
        atoms_wt(atoms),
{
    assert forall|i: int|
        0 <= i < atoms.len() && is_node_start_code(#[trigger] atoms[i].code) implies atoms[i].value
        == ValueV::String(atoms[i].raw) by {
        assert(crate::value::spec_typed_value(atoms[i].code, atoms[i].raw) == Some(
            ValueV::String(atoms[i].raw),
        ));
    }
}

/// The pipeline-level reconstruction: a tokenized stream, parsed into a
/// node run whose nested containers were all properly terminated,
/// flattens back to exactly the consumed prefix of the stream (the `EOF`
/// marker atom included where the run ended on it).
pub proof fn lemma_tokenized_tree_reconstructs(lines: Seq<Seq<char>>, atoms: Seq<AtomV>)
    requires
        crate::atom::spec_parse_lines(lines) == Ok::<Seq<AtomV>, crate::atom::ParseErrorV>(atoms),
        spec_parse_nodes(atoms, 0) matches Some(acc) && acc.clean,
    ensures
        ({
            let acc = spec_parse_nodes(atoms, 0)->Some_0;
            spec_flat_seq(acc.nodes) + spec_flat(acc.end) == atoms.subrange(
                0,
                acc.pos + if acc.eof {
                    1int
                } else {
                    0int
                },
            )
        }),
{
    crate::atom::lemma_parse_lines_well_typed(lines, atoms);
    lemma_well_typed_implies_wt(atoms);
    lemma_parse_nodes_reconstructs(atoms, 0);
}

pub proof fn lemma_flat_seq_push(ns: Seq<NodeV>, x: NodeV)
    ensures
        spec_flat_seq(ns.push(x)) == spec_flat_seq(ns) + spec_flat(x),
    decreases ns.len(),
{
    if ns.len() == 0 {
        reveal_with_fuel(spec_flat_seq, 3);
        assert(ns.push(x)[0] == x);
        assert(ns.push(x).drop_first() =~= Seq::<NodeV>::empty());
        assert(spec_flat_seq(ns.push(x)) =~= spec_flat_seq(ns) + spec_flat(x));
    } else {
        lemma_flat_seq_push(ns.drop_first(), x);
        assert(ns.push(x)[0] == ns[0]);
        assert(ns.push(x).drop_first() =~= ns.drop_first().push(x));
        assert(spec_flat(ns[0]) + (spec_flat_seq(ns.drop_first()) + spec_flat(x))
            =~= spec_flat_seq(ns) + spec_flat(x));
    }
}

// ---------------------------------------------------------------------
// executable helpers
fn eof_string() -> (r: String)
    ensures
        r@ == "EOF"@,
{
    String::from_str("EOF")
}

/// Tests a node type for the terminator rule, [`spec_is_terminator`].
fn is_terminator_type(t: &String) -> (r: bool)
    ensures
        r == spec_is_terminator(t@),
{
    let cs: Vec<char> = crate::chars::chars_of(t.as_str());
    let n: usize = cs.len();
    if n > 0 && cs[0] == '$' {
        return false;
    }
    if n < 3 {
        proof {
            assert(!spec_contains_end(t@));
        }
        return false;
    }
    let mut i: usize = 0;
    let mut found: bool = false;
    while i <= n - 3
        invariant
            0 <= i,
            i <= n - 2,
            3 <= n,
            n == cs@.len(),
            cs@ == t@,
            found == exists|j: int|
                0 <= j && j + 3 <= n && j < i && #[trigger] t@[j] == 'E' && t@[j + 1] == 'N'
                    && t@[j + 2] == 'D',
        decreases n - i,
    {
        if cs[i] == 'E' && cs[i + 1] == 'N' && cs[i + 2] == 'D' {
            found = true;
        }
        i = i + 1;
    }
    proof {
        if found {
            assert(spec_contains_end(t@));
        } else {
            assert forall|j: int|
                0 <= j && j + 3 <= t@.len() implies !(#[trigger] t@[j] == 'E' && t@[j + 1] == 'N'
                && t@[j + 2] == 'D') by {
                assert(j < i);
            }
            assert(!spec_contains_end(t@));
        }
    }
    found
}

/// Tests a node for the container rule, [`spec_is_container`].
fn is_container_node(node: &Node) -> (r: bool)
    ensures
        r == spec_is_container(node@),
{
    if node.node_type == String::from_str("SECTION") || node.node_type == String::from_str(
        "BLOCK",
    ) || node.node_type == String::from_str("TABLE") || node.node_type == String::from_str(
        "POLYLINE",
    ) {
        return true;
    }
    if !(node.node_type == String::from_str("INSERT")) {
        return false;
    }
    let n: usize = node.atoms.len();
    let ghost av = node@.atoms;
    proof {
        assert(av.len() == n);
    }
    let mut i: usize = 0;
    while i < n
        invariant
            0 <= i <= n,
            n == node.atoms@.len(),
            av == node@.atoms,
            av.len() == n,
            node@.node_type == "INSERT"@,
            forall|j: int|
                0 <= j < i ==> !(#[trigger] av[j].code == 66 && av[j].value == ValueV::I16(1i16)),
        decreases n - i,
    {
        proof {
            assert(av[i as int] == node.atoms@[i as int]@);
        }
        let hit: bool = match &node.atoms[i].value {
            Value::I16(v) => node.atoms[i].code == 66 && *v == 1,
            _ => false,
        };
        if hit {
            proof {
                assert(av[i as int].code == 66 && av[i as int].value == ValueV::I16(1i16));
            }
            return true;
        }
        i = i + 1;
    }
    false
}

/// First node-starting position at or after `from`.
fn scan_node_end(atoms: &Vec<Atom>, from: usize) -> (end: usize)
    requires
        from <= atoms@.len(),
    ensures
        from <= end <= atoms@.len(),
        end == spec_find_node_start(atoms.deep_view(), from as int),
{
    let ghost adv = atoms.deep_view();
    let n: usize = atoms.len();
    let mut j: usize = from;
    while j < n && !(atoms[j].code == 0 || atoms[j].code == 9)
        invariant
            from <= j <= n,
            n == atoms@.len(),
            adv == atoms.deep_view(),
            spec_find_node_start(adv, from as int) == spec_find_node_start(adv, j as int),
        decreases n - j,
    {
        proof {
            assert(adv[j as int] == atoms@[j as int]@);
        }
        j = j + 1;
    }
    proof {
        if j < n {
            assert(adv[j as int] == atoms@[j as int]@);
        }
    }
    j
}

/// Copies `atoms[from..to]`.
pub(crate) fn copy_atoms(atoms: &Vec<Atom>, from: usize, to: usize) -> (r: Vec<Atom>)
    requires
        from <= to <= atoms@.len(),
    ensures
        r.deep_view() == atoms.deep_view().subrange(from as int, to as int),
{
    let mut r: Vec<Atom> = Vec::new();
    let mut i: usize = from;
    while i < to
        invariant
            from <= i <= to <= atoms@.len(),
            r.deep_view() == atoms.deep_view().subrange(from as int, i as int),
        decreases to - i,
    {
        let ghost before = r.deep_view();
        r.push(atoms[i].to_owned());
        proof {
            assert(r.deep_view() =~~= before.push(atoms@[i as int]@));
            assert(before.push(atoms.deep_view()[i as int]) =~= atoms.deep_view().subrange(
                from as int,
                i + 1,
            ));
        }
        i = i + 1;
    }
    r
}

impl Node {
    /// Builds the top-level node list from the atom sequence, as
    /// [`spec_parse_nodes`] says; a malformed stream (no terminator where
    /// one is owed, or no top-level `EOF` marker) is a structure error.
    pub fn parse_atoms(atoms: &Vec<Atom>) -> (r: ParseResult<Vec<Node>>)
        ensures
            match r {
                Ok(nodes) => spec_parse_nodes(atoms.deep_view(), 0) matches Some(acc)
                    && acc.nodes == spec_nodes_view(nodes@),
                Err(e) => spec_parse_nodes(atoms.deep_view(), 0) is None && e
                    == ParseError::StructureError,
            },
    {
        match Node::parse_nodes_at(atoms, 0) {
            Some((nodes, _end, _pos)) => Ok(nodes),
            None => Err(ParseError::StructureError),
        }
    }

    /// Parses sibling nodes from `start` to a terminator or the `EOF`
    /// marker.
    fn parse_nodes_at(atoms: &Vec<Atom>, start: usize) -> (r: Option<(Vec<Node>, Node, usize)>)
        requires
            start <= atoms@.len(),
        ensures
            match r {
                Some((nodes, endn, pos)) => spec_parse_nodes(atoms.deep_view(), start as int)
                    matches Some(acc) && acc.nodes == spec_nodes_view(nodes@) && acc.end == endn@
                    && acc.pos == pos as int && start <= pos <= atoms@.len(),
                None => spec_parse_nodes(atoms.deep_view(), start as int) is None,
            },
        decreases atoms@.len() - start, 1int,
    {
        let ghost adv = atoms.deep_view();
        let n: usize = atoms.len();
        let mut collected: Vec<Node> = Vec::new();
        let mut cur: usize = start;
        proof {
            assert(spec_nodes_view(collected@) =~= Seq::<NodeV>::empty());
        }
        loop
            invariant
                start <= cur <= n,
                n == atoms@.len(),
                adv == atoms.deep_view(),
                adv.len() == n,
                match spec_parse_nodes(adv, cur as int) {
                    Some(acc) => spec_parse_nodes(adv, start as int) matches Some(acc0)
                        && acc0.nodes == spec_nodes_view(collected@) + acc.nodes && acc0.end
                        == acc.end && acc0.pos == acc.pos && acc0.eof == acc.eof,
                    None => spec_parse_nodes(adv, start as int) is None,
                },
            decreases n - cur,
        {
            if cur >= n {
                return None;
            }
            let c: i16 = atoms[cur].code;
            proof {
                assert(adv[cur as int] == atoms@[cur as int]@);
            }
            if !(c == 0 || c == 9) {
                return None;
            }
            match Node::parse_node_at(atoms, cur) {
                Some((node, pos)) => {
                    let ghost nv = node@;
                    if is_terminator_type(&node.node_type) {
                        proof {
                            let acc = spec_parse_nodes(adv, cur as int)->Some_0;
                            assert(acc.nodes =~= Seq::<NodeV>::empty());
                            assert(spec_nodes_view(collected@) + Seq::<NodeV>::empty()
                                =~= spec_nodes_view(collected@));
                        }
                        return Some((collected, node, pos));
                    }
                    let ghost before = collected@;
                    collected.push(node);
                    proof {
                        lemma_nodes_view_push(before, collected@[collected@.len() - 1]);
                        assert(collected@ == before.push(collected@[collected@.len() - 1]));
                        assert(spec_nodes_view(collected@) == spec_nodes_view(before) + seq![nv]);
                        let acc_cur = spec_parse_nodes(adv, cur as int)->Some_0;
                        match spec_parse_nodes(adv, pos as int) {
                            Some(acc_next) => {
                                assert(acc_cur.nodes == seq![nv] + acc_next.nodes);
                                assert(spec_nodes_view(before) + (seq![nv] + acc_next.nodes)
                                    =~= spec_nodes_view(collected@) + acc_next.nodes);
                            },
                            None => (),
                        }
                    }
                    cur = pos;
                },
                None => {
                    let is_eof: bool = match &atoms[cur].value {
                        Value::String(s) => *s == eof_string(),
                        _ => false,
                    };
                    if is_eof {
                        let endn = Node {
                            node_type: eof_string(),
                            code: c,
                            atoms: Vec::new(),
                            nodes: Vec::new(),
                            end: None,
                        };
                        proof {
                            reveal_with_fuel(spec_node_view, 2);
                            reveal_with_fuel(spec_nodes_view, 2);
                            assert(endn@.node_type == "EOF"@);
                            assert(endn@.code == adv[cur as int].code);
                            assert(endn@.atoms =~= Seq::<AtomV>::empty());
                            assert(endn@.nodes =~= Seq::<NodeV>::empty());
                            assert(endn@.end is None);
                            assert(endn@ =~= spec_eof_node(adv[cur as int]));
                            let acc = spec_parse_nodes(adv, cur as int)->Some_0;
                            assert(acc.nodes =~= Seq::<NodeV>::empty());
                            assert(spec_nodes_view(collected@) + Seq::<NodeV>::empty()
                                =~= spec_nodes_view(collected@));
                        }
                        return Some((collected, endn, cur));
                    } else {
                        return None;
                    }
                },
            }
        }
    }

    /// Every atom of this node and its descendants, in document order:
    /// the type atom, the node's own atoms, each child's atoms, then the
    /// end node's, as [`spec_flat`] says.
    pub fn iter_atoms(&self) -> (r: Vec<Atom>)
        ensures
            r.deep_view() == spec_flat(self@),
        decreases *self,
    {
        let mut r: Vec<Atom> = Vec::new();
        r.push(
            Atom {
                code: self.code,
                raw: clone_string(&self.node_type),
                value: Value::String(clone_string(&self.node_type)),
            },
        );
        proof {
            assert(r.deep_view() =~~= seq![spec_type_atom(self@)]);
        }
        let n: usize = self.atoms.len();
        let mut i: usize = 0;
        while i < n
            invariant
                0 <= i <= n,
                n == self.atoms@.len(),
                r.deep_view() == seq![spec_type_atom(self@)] + self@.atoms.take(i as int),
            decreases n - i,
        {
            let ghost before = r.deep_view();
            r.push(self.atoms[i].to_owned());
            proof {
                assert(r.deep_view() =~~= before.push(self.atoms@[i as int]@));
                assert(self@.atoms[i as int] == self.atoms@[i as int]@);
                assert(before.push(self@.atoms[i as int]) =~= seq![spec_type_atom(self@)]
                    + self@.atoms.take(i + 1));
            }
            i = i + 1;
        }
        proof {
            assert(self@.atoms.take(n as int) =~= self@.atoms);
            lemma_nodes_view_index(self.nodes@);
            assert(spec_flat_seq(self@.nodes.take(0)) =~= Seq::<AtomV>::empty());
            assert(r.deep_view() =~= seq![spec_type_atom(self@)] + self@.atoms + spec_flat_seq(
                self@.nodes.take(0),
            ));
        }
        let m: usize = self.nodes.len();
        let mut j: usize = 0;
        while j < m
            invariant
                0 <= j <= m,
                m == self.nodes@.len(),
                m == self@.nodes.len(),
                forall|k: int|
                    0 <= k < m ==> #[trigger] self@.nodes[k] == spec_node_view(self.nodes@[k]),
                r.deep_view() == seq![spec_type_atom(self@)] + self@.atoms + spec_flat_seq(
                    self@.nodes.take(j as int),
                ),
            decreases m - j,
        {
            let mut sub: Vec<Atom> = self.nodes[j].iter_atoms();
            let ghost before = r.deep_view();
            let ghost subdv = sub.deep_view();
            r.append(&mut sub);
            proof {
                assert(r.deep_view() =~~= before + subdv);
                lemma_flat_seq_push(self@.nodes.take(j as int), self@.nodes[j as int]);
                assert(self@.nodes.take(j as int).push(self@.nodes[j as int])
                    =~= self@.nodes.take(j + 1));
                assert(before + subdv =~= seq![spec_type_atom(self@)] + self@.atoms
                    + spec_flat_seq(self@.nodes.take(j + 1)));
            }
            j = j + 1;
        }
        proof {
            assert(self@.nodes.take(m as int) =~= self@.nodes);
        }
        match &self.end {
            Some(b) => {
                let mut sub: Vec<Atom> = b.iter_atoms();
                let ghost before = r.deep_view();
                let ghost subdv = sub.deep_view();
                r.append(&mut sub);
                proof {
                    assert(r.deep_view() =~~= before + subdv);
                    assert(self@.end matches Some(e) && *e == (**b)@);
                    assert(r.deep_view() =~= spec_flat(self@));
                }
            },
            None => {
                proof {
                    assert(r.deep_view() + Seq::<AtomV>::empty() =~= r.deep_view());
                    assert(r.deep_view() =~= spec_flat(self@));
                }
            },
        }
        r
    }

    /// A deep copy of this node, equal in model.
    pub fn to_owned(&self) -> (r: Node)
        ensures
            r@ == self@,
        decreases *self,
    {
        let n: usize = self.nodes.len();
        let mut kids: Vec<Node> = Vec::new();
        let mut i: usize = 0;
        while i < n
            invariant
                0 <= i <= n,
                n == self.nodes@.len(),
                kids@.len() == i,
                forall|k: int| 0 <= k < i ==> #[trigger] kids@[k]@ == self.nodes@[k]@,
            decreases n - i,
        {
            kids.push(self.nodes[i].to_owned());
            i = i + 1;
        }
        let endc: Option<Box<Node>> = match &self.end {
            Some(b) => Some(Box::new(Node::to_owned(&*(*b)))),
            None => None,
        };
        let r = Node {
            node_type: clone_string(&self.node_type),
            code: self.code,
            atoms: copy_atoms(&self.atoms, 0, self.atoms.len()),
            nodes: kids,
            end: endc,
        };
        proof {
            assert(r.atoms.deep_view() =~= self.atoms.deep_view());
            lemma_nodes_view_index(r.nodes@);
            lemma_nodes_view_index(self.nodes@);
            assert forall|k: int|
                0 <= k < n implies spec_nodes_view(r.nodes@)[k] == spec_nodes_view(
                self.nodes@,
            )[k] by {
                assert(spec_nodes_view(r.nodes@)[k] == spec_node_view(r.nodes@[k]));
                assert(spec_nodes_view(self.nodes@)[k] == spec_node_view(self.nodes@[k]));
                assert(r.nodes@[k]@ == self.nodes@[k]@);
            }
            assert(spec_nodes_view(r.nodes@) =~= spec_nodes_view(self.nodes@));
            assert(r@ =~= self@);
        }
        r
    }

    /// The whole front half of the pipeline: tokenizes the text, then
    /// builds the node tree.
    pub fn parse_str(s: &str) -> (r: ParseResult<Vec<Node>>)
        ensures
            match r {
                Ok(nodes) => crate::atom::spec_parse_lines(crate::chars::spec_lines(s@))
                    matches Ok(atoms) && spec_parse_nodes(atoms, 0) matches Some(acc)
                    && acc.nodes == spec_nodes_view(nodes@),
                Err(e) => (crate::atom::spec_parse_lines(crate::chars::spec_lines(s@))
                    matches Err(ev) && e@ == ev) || (crate::atom::spec_parse_lines(
                    crate::chars::spec_lines(s@),
                ) matches Ok(atoms) && spec_parse_nodes(atoms, 0) is None && e
                    == ParseError::StructureError),
            },
    {
        let atoms: Vec<Atom> = match Atom::parse_str(s) {
            Ok(atoms) => atoms,
            Err(e) => {
                return Err(e);
            },
        };
        Node::parse_atoms(&atoms)
    }

    /// The pipeline from raw bytes: decode the text, tokenize, build the
    /// node tree.
    pub fn parse_bytes(bytes: &[u8]) -> (r: ParseResult<Vec<Node>>)
        ensures
            match r {
                Ok(nodes) => bytes@.len() <= crate::encoding::MAX_DECODE_INPUT && (
                crate::encoding::spec_decoded_text(bytes@) matches Some(t) && (
                crate::atom::spec_parse_lines(crate::chars::spec_lines(t)) matches Ok(atoms) && (
                spec_parse_nodes(atoms, 0) matches Some(acc) && acc.nodes == spec_nodes_view(
                    nodes@,
                )))),
                Err(e) => {
                    ||| (bytes@.len() > crate::encoding::MAX_DECODE_INPUT && e
                        == ParseError::EncodingError)
                    ||| (crate::encoding::spec_decoded_text(bytes@) is None && e
                        == ParseError::EncodingError)
                    ||| (crate::encoding::spec_decoded_text(bytes@) matches Some(t)
                        && crate::atom::spec_parse_lines(crate::chars::spec_lines(t))
                        matches Err(ev) && e@ == ev)
                    ||| (crate::encoding::spec_decoded_text(bytes@) matches Some(t) && (
                    crate::atom::spec_parse_lines(crate::chars::spec_lines(t)) matches Ok(atoms)
                        && spec_parse_nodes(atoms, 0) is None && e == ParseError::StructureError))
                },
            },
    {
        let text: String = match crate::encoding::bytes_to_string(bytes) {
            Ok(s) => s,
            Err(_) => {
                return Err(ParseError::EncodingError);
            },
        };
        Node::parse_str(text.as_str())
    }

    /// Parses one node at `start`; for containers, recurses into the
    /// children.
    fn parse_node_at(atoms: &Vec<Atom>, start: usize) -> (r: Option<(Node, usize)>)
        requires
            start < atoms@.len(),
        ensures
            match r {
                Some((node, pos)) => spec_parse_node(atoms.deep_view(), start as int)
                    matches Some((nv, p, c)) && nv == node@ && p == pos as int && start < pos
                    <= atoms@.len(),
                None => spec_parse_node(atoms.deep_view(), start as int) is None,
            },
        decreases atoms@.len() - start, 0int,
    {
        let ghost adv = atoms.deep_view();
        let n: usize = atoms.len();
        let c: i16 = atoms[start].code;
        proof {
            assert(adv[start as int] == atoms@[start as int]@);
        }
        if !(c == 0 || c == 9) {
            return None;
        }
        let node_type: String = clone_string(&atoms[start].raw);
        let end0: usize = scan_node_end(atoms, start + 1);
        if end0 == n {
            return None;
        }
        let own: Vec<Atom> = copy_atoms(atoms, start + 1, end0);
        let node = Node { node_type, code: c, atoms: own, nodes: Vec::new(), end: None };
        let ghost elemv = spec_parse_element(adv, adv[start as int].raw, c, start + 1)->Some_0.0;
        proof {
            reveal_with_fuel(spec_node_view, 2);
            reveal_with_fuel(spec_nodes_view, 2);
            assert(node@.nodes =~= Seq::<NodeV>::empty());
            assert(node@ =~= elemv);
        }
        if is_container_node(&node) {
            match Node::parse_nodes_at(atoms, end0) {
                Some((children, endn, pos2)) => {
                    let ghost cnv = spec_nodes_view(children@);
                    let ghost endv = endn@;
                    let node2 = Node {
                        node_type: node.node_type,
                        code: node.code,
                        atoms: node.atoms,
                        nodes: children,
                        end: Some(Box::new(endn)),
                    };
                    proof {
                        let acc = spec_parse_nodes(adv, end0 as int)->Some_0;
                        let nv = spec_parse_node(adv, start as int)->Some_0.0;
                        assert(acc.nodes == cnv);
                        assert(node2@.nodes == spec_nodes_view(node2.nodes@));
                        assert(node2@.nodes == cnv);
                        assert(node2@.end == Some(Box::new(endv)));
                        assert(node2@.node_type == elemv.node_type && node2@.code == elemv.code
                            && node2@.atoms == elemv.atoms);
                        assert(node2@ =~= nv);
                    }
                    Some((node2, pos2))
                },
                None => None,
            }
        } else {
            Some((node, end0))
        }
    }
}

} // verus!
