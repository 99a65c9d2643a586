//! The decoded document: headers, tables, blocks and entities, assembled
//! from the top-level section nodes.
use crate::atom::Atom;
use crate::atom::AtomV;
use crate::block::spec_block_node_of;
use crate::block::BlockNode;
use crate::block::BlockNodeV;
use crate::entity::spec_entity_node_of;
use crate::entity::EntityNode;
use crate::entity::EntityNodeV;
use crate::node::spec_node_view;
use crate::node::spec_nodes_view;
use crate::node::Node;
use crate::node::NodeV;
use crate::table::spec_string_at;
use crate::table::spec_table_node_of;
use crate::table::TableNode;
use crate::table::TableNodeV;
use crate::ParseError;
use crate::ParseResult;
use vstd::prelude::*;

verus! {

broadcast use vstd::std_specs::vec::group_vec_axioms;

/// The decoded drawing: raw header variable nodes, and the typed tables,
/// blocks and entities.
#[derive(Debug, PartialEq)]
pub struct Document {
    pub headers: Vec<Node>,
    pub tables: Vec<TableNode>,
    pub blocks: Vec<BlockNode>,
    pub entities: Vec<EntityNode>,
}

/// Mathematical model of a [`Document`].
#[verifier::ext_equal]
pub struct DocumentV {
    pub headers: Seq<NodeV>,
    pub tables: Seq<TableNodeV>,
    pub blocks: Seq<BlockNodeV>,
    pub entities: Seq<EntityNodeV>,
}

impl View for Document {
    type V = DocumentV;

    open spec fn view(&self) -> DocumentV {
        DocumentV {
            headers: spec_nodes_view(self.headers@),
            tables: self.tables.deep_view(),
            blocks: self.blocks.deep_view(),
            entities: self.entities.deep_view(),
        }
    }
}

pub open spec fn spec_document_empty() -> DocumentV {
    DocumentV {
        headers: Seq::empty(),
        tables: Seq::empty(),
        blocks: Seq::empty(),
        entities: Seq::empty(),
    }
}

/// One top-level section, keyed by its code 2 name: headers are kept as
/// raw nodes, the other known sections are decoded; `CLASSES`, `OBJECTS`
/// and unknown sections are passed over.
pub open spec fn spec_document_step(d: DocumentV, n: NodeV) -> DocumentV {
    let sec = spec_string_at(n.atoms, 2);
    if sec == "HEADER"@ {
        DocumentV { headers: n.nodes, ..d }
    } else if sec == "TABLES"@ {
        DocumentV {
            tables: Seq::new(n.nodes.len(), |i: int| spec_table_node_of(n.nodes[i])),
            ..d
        }
    } else if sec == "BLOCKS"@ {
        DocumentV {
            blocks: Seq::new(n.nodes.len(), |i: int| spec_block_node_of(n.nodes[i])),
            ..d
        }
    } else if sec == "ENTITIES"@ {
        DocumentV {
            entities: Seq::new(n.nodes.len(), |i: int| spec_entity_node_of(n.nodes[i])),
            ..d
        }
    } else {
        d
    }
}

pub open spec fn spec_document_from(ns: Seq<NodeV>, d: DocumentV) -> DocumentV
    decreases ns.len(),
{
    if ns.len() == 0 {
        d
    } else {
        spec_document_from(ns.drop_first(), spec_document_step(d, ns[0]))
    }
}

/// The document a top-level node list decodes to.
pub open spec fn spec_document_of(ns: Seq<NodeV>) -> DocumentV {
    spec_document_from(ns, spec_document_empty())
}

fn section_name(n: &Node) -> (r: String)
    ensures
        r@ == spec_string_at(n@.atoms, 2),
{
    crate::table::string_at(&n.atoms, 2)
}

impl Document {
    /// Assembles the document from the top-level nodes, as
    /// [`spec_document_of`] says.
    pub fn parse_nodes(nodes: &Vec<Node>) -> (r: Document)
        ensures
            r@ == spec_document_of(spec_nodes_view(nodes@)),
    {
        let ghost nsv = spec_nodes_view(nodes@);
        let mut d = Document {
            headers: Vec::new(),
            tables: Vec::new(),
            blocks: Vec::new(),
            entities: Vec::new(),
        };
        proof {
            crate::node::lemma_nodes_view_index(nodes@);
            assert(d@ =~= spec_document_empty());
            assert(nsv.skip(0) =~= nsv);
        }
        let n: usize = nodes.len();
        let mut i: usize = 0;
        while i < n
            invariant
                0 <= i <= n,
                n == nodes@.len(),
                nsv == spec_nodes_view(nodes@),
                nsv.len() == n,
                forall|k: int|
                    0 <= k < n ==> #[trigger] nsv[k] == spec_node_view(nodes@[k]),
                spec_document_of(nsv) == spec_document_from(nsv.skip(i as int), d@),
            decreases n - i,
        {
            let ghost d0 = d@;
            proof {
                assert(nsv.skip(i as int)[0] == nsv[i as int]);
                assert(nsv.skip(i as int).drop_first() =~= nsv.skip(i + 1));
            }
            let section: &Node = &nodes[i];
            let name: String = section_name(section);
            if name == String::from_str("HEADER") {
                let mut hs: Vec<Node> = Vec::new();
                let m: usize = section.nodes.len();
                let mut j: usize = 0;
                proof {
                    crate::node::lemma_nodes_view_index(section.nodes@);
                }
                while j < m
                    invariant
                        0 <= j <= m,
                        m == section.nodes@.len(),
                        section@.nodes.len() == m,
                        forall|k: int|
                            0 <= k < m ==> #[trigger] section@.nodes[k] == spec_node_view(
                                section.nodes@[k],
                            ),
                        hs@.len() == j,
                        forall|k: int|
                            0 <= k < j ==> #[trigger] hs@[k]@ == section@.nodes[k],
                    decreases m - j,
                {
                    hs.push(section.nodes[j].to_owned());
                    j = j + 1;
                }
                let ghost hsv = hs@;
                d.headers = hs;
                proof {
                    assert(d.headers@ == hsv);
                    crate::node::lemma_nodes_view_index(d.headers@);
                    assert forall|k: int|
                        0 <= k < m implies spec_nodes_view(d.headers@)[k]
                        == section@.nodes[k] by {
                        assert(spec_nodes_view(d.headers@)[k] == spec_node_view(d.headers@[k]));
                        assert(hsv[k]@ == section@.nodes[k]);
                        assert(d.headers@[k] == hsv[k]);
                    }
                    assert(spec_nodes_view(d.headers@) =~= section@.nodes);
                    assert(d@ =~= spec_document_step(d0, nsv[i as int]));
                }
            } else if name == String::from_str("TABLES") {
                let mut ts: Vec<TableNode> = Vec::new();
                let m: usize = section.nodes.len();
                let mut j: usize = 0;
                proof {
                    crate::node::lemma_nodes_view_index(section.nodes@);
                }
                while j < m
                    invariant
                        0 <= j <= m,
                        m == section.nodes@.len(),
                        section@.nodes.len() == m,
                        forall|k: int|
                            0 <= k < m ==> #[trigger] section@.nodes[k] == spec_node_view(
                                section.nodes@[k],
                            ),
                        ts.deep_view().len() == j,
                        forall|k: int|
                            0 <= k < j ==> #[trigger] ts.deep_view()[k] == spec_table_node_of(
                                section@.nodes[k],
                            ),
                    decreases m - j,
                {
                    let t: TableNode = TableNode::from_node(&section.nodes[j]);
                    let ghost before = ts.deep_view();
                    ts.push(t);
                    proof {
                        assert(ts.deep_view() =~~= before.push(ts@[j as int]@));
                    }
                    j = j + 1;
                }
                d.tables = ts;
                proof {
                    assert(d@.tables =~= spec_document_step(d0, nsv[i as int]).tables);
                    assert(d@ =~= spec_document_step(d0, nsv[i as int]));
                }
            } else if name == String::from_str("BLOCKS") {
                let mut bs: Vec<BlockNode> = Vec::new();
                let m: usize = section.nodes.len();
                let mut j: usize = 0;
                proof {
                    crate::node::lemma_nodes_view_index(section.nodes@);
                }
                while j < m
                    invariant
                        0 <= j <= m,
                        m == section.nodes@.len(),
                        section@.nodes.len() == m,
                        forall|k: int|
                            0 <= k < m ==> #[trigger] section@.nodes[k] == spec_node_view(
                                section.nodes@[k],
                            ),
                        bs.deep_view().len() == j,
                        forall|k: int|
                            0 <= k < j ==> #[trigger] bs.deep_view()[k] == spec_block_node_of(
                                section@.nodes[k],
                            ),
                    decreases m - j,
                {
                    let b: BlockNode = BlockNode::from_node(&section.nodes[j]);
                    let ghost before = bs.deep_view();
                    bs.push(b);
                    proof {
                        assert(bs.deep_view() =~~= before.push(bs@[j as int]@));
                    }
                    j = j + 1;
                }
                d.blocks = bs;
                proof {
                    assert(d@.blocks =~= spec_document_step(d0, nsv[i as int]).blocks);
                    assert(d@ =~= spec_document_step(d0, nsv[i as int]));
                }
            } else if name == String::from_str("ENTITIES") {
                let mut es: Vec<EntityNode> = Vec::new();
                let m: usize = section.nodes.len();
                let mut j: usize = 0;
                proof {
                    crate::node::lemma_nodes_view_index(section.nodes@);
                }
                while j < m
                    invariant
                        0 <= j <= m,
                        m == section.nodes@.len(),
                        section@.nodes.len() == m,
                        forall|k: int|
                            0 <= k < m ==> #[trigger] section@.nodes[k] == spec_node_view(
                                section.nodes@[k],
                            ),
                        es.deep_view().len() == j,
                        forall|k: int|
                            0 <= k < j ==> #[trigger] es.deep_view()[k] == spec_entity_node_of(
                                section@.nodes[k],
                            ),
                    decreases m - j,
                {
                    let e: EntityNode = EntityNode::from_node(&section.nodes[j]);
                    let ghost before = es.deep_view();
                    es.push(e);
                    proof {
                        assert(es.deep_view() =~~= before.push(es@[j as int]@));
                    }
                    j = j + 1;
                }
                d.entities = es;
                proof {
                    assert(d@.entities =~= spec_document_step(d0, nsv[i as int]).entities);
                    assert(d@ =~= spec_document_step(d0, nsv[i as int]));
                }
            } else {
                proof {
                    assert(d@ == spec_document_step(d0, nsv[i as int]));
                }
            }
            i = i + 1;
        }
        proof {
            assert(nsv.skip(n as int).len() == 0);
        }
        d
    }

    /// Decodes the document from an already tokenized atom sequence.
    pub fn parse_atoms(atoms: &Vec<Atom>) -> (r: ParseResult<Document>)
        ensures
            match r {
                Ok(d) => crate::node::spec_parse_nodes(atoms.deep_view(), 0) matches Some(acc)
                    && d@ == spec_document_of(acc.nodes),
                Err(e) => crate::node::spec_parse_nodes(atoms.deep_view(), 0) is None && e
                    == ParseError::StructureError,
            },
    {
        match Node::parse_atoms(atoms) {
            Ok(nodes) => Ok(Document::parse_nodes(&nodes)),
            Err(e) => Err(e),
        }
    }

    /// The whole pipeline from text: tokenize, build the tree, decode.
    pub fn parse_str(s: &str) -> (r: ParseResult<Document>)
        ensures
            match r {
                Ok(d) => crate::atom::spec_parse_lines(crate::chars::spec_lines(s@))
                    matches Ok(atoms) && (crate::node::spec_parse_nodes(atoms, 0) matches Some(
                    acc,
                ) && d@ == spec_document_of(acc.nodes)),
                Err(e) => (crate::atom::spec_parse_lines(crate::chars::spec_lines(s@))
                    matches Err(ev) && e@ == ev) || (crate::atom::spec_parse_lines(
                    crate::chars::spec_lines(s@),
                ) matches Ok(atoms) && crate::node::spec_parse_nodes(atoms, 0) is None && e
                    == ParseError::StructureError),
            },
    {
        match Atom::parse_str(s) {
            Ok(atoms) => Document::parse_atoms(&atoms),
            Err(e) => Err(e),
        }
    }

    /// The whole pipeline from raw bytes: decode the text, tokenize,
    /// build the tree, decode the document.
    pub fn parse_bytes(bytes: &[u8]) -> (r: ParseResult<Document>)
        ensures
            match r {
                Ok(d) => bytes@.len() <= crate::encoding::MAX_DECODE_INPUT && (
                crate::encoding::spec_decoded_text(bytes@) matches Some(t) && (
                crate::atom::spec_parse_lines(crate::chars::spec_lines(t)) matches Ok(atoms) && (
                crate::node::spec_parse_nodes(atoms, 0) matches Some(acc) && d@
                    == spec_document_of(acc.nodes)))),
                Err(e) => {
                    ||| (bytes@.len() > crate::encoding::MAX_DECODE_INPUT && e
                        == ParseError::EncodingError)
                    ||| (crate::encoding::spec_decoded_text(bytes@) is None && e
                        == ParseError::EncodingError)
                    ||| (crate::encoding::spec_decoded_text(bytes@) matches Some(t)
                        && crate::atom::spec_parse_lines(crate::chars::spec_lines(t))
                        matches Err(ev) && e@ == ev)
                    ||| (crate::encoding::spec_decoded_text(bytes@) matches Some(t) && (
                    crate::atom::spec_parse_lines(crate::chars::spec_lines(t)) matches Ok(atoms)
                        && crate::node::spec_parse_nodes(atoms, 0) is None && e
                        == ParseError::StructureError))
                },
            },
    {
        let text: String = match crate::encoding::bytes_to_string(bytes) {
            Ok(s) => s,
            Err(_) => {
                return Err(ParseError::EncodingError);
            },
        };
        Document::parse_str(text.as_str())
    }
}

} // verus!
