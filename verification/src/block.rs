//! The typed-model decoder for block definitions.
use crate::atom::clone_string;
use crate::atom::Atom;
use crate::atom::AtomV;
use crate::data::block_flags_from_i16;
use crate::data::spec_block_flags_from_i16;
use crate::data::BlockFlags;
use crate::entity::spec_entity_node_of;
use crate::entity::spec_vec3_zero;
use crate::entity::EntityNode;
use crate::entity::EntityNodeV;
use crate::entity::Vec3;
use crate::entity::Vec3V;
use crate::node::spec_node_view;
use crate::node::Node;
use crate::node::NodeV;
use crate::value::Float64;
use crate::value::Value;
use crate::value::ValueV;
use vstd::prelude::*;

verus! {

broadcast use vstd::std_specs::vec::group_vec_axioms;

/// One block definition: its own fields and the entities it contains.
#[derive(Debug, PartialEq)]
pub struct BlockNode {
    pub handle: u32,
    pub layer: String,
    pub block_name: String,
    pub block_flags: BlockFlags,
    pub base_point: Vec3,
    pub xref_path_name: String,
    pub description: String,
    pub entities: Vec<EntityNode>,
}

/// Mathematical model of a [`BlockNode`].
#[verifier::ext_equal]
pub struct BlockNodeV {
    pub handle: u32,
    pub layer: Seq<char>,
    pub block_name: Seq<char>,
    pub block_flags: BlockFlags,
    pub base_point: Vec3V,
    pub xref_path_name: Seq<char>,
    pub description: Seq<char>,
    pub entities: Seq<EntityNodeV>,
}

impl DeepView for BlockNode {
    type V = BlockNodeV;

    open spec fn deep_view(&self) -> BlockNodeV {
        self@
    }
}

impl View for BlockNode {
    type V = BlockNodeV;

    open spec fn view(&self) -> BlockNodeV {
        BlockNodeV {
            handle: self.handle,
            layer: self.layer@,
            block_name: self.block_name@,
            block_flags: self.block_flags,
            base_point: self.base_point@,
            xref_path_name: self.xref_path_name@,
            description: self.description@,
            entities: self.entities.deep_view(),
        }
    }
}

pub open spec fn spec_block_default() -> BlockNodeV {
    BlockNodeV {
        handle: 0,
        layer: Seq::empty(),
        block_name: Seq::empty(),
        block_flags: spec_block_flags_from_i16(0),
        base_point: spec_vec3_zero(),
        xref_path_name: Seq::empty(),
        description: Seq::empty(),
        entities: Seq::empty(),
    }
}

/// The block's own per-code table; the name comes from code 2 or 3.
pub open spec fn spec_block_set_atom(p: BlockNodeV, a: AtomV) -> BlockNodeV {
    if a.code == 8 {
        match a.value {
            ValueV::String(s) => BlockNodeV { layer: s, ..p },
            _ => p,
        }
    } else if a.code == 2 || a.code == 3 {
        match a.value {
            ValueV::String(s) => BlockNodeV { block_name: s, ..p },
            _ => p,
        }
    } else if a.code == 70 {
        match a.value {
            ValueV::I16(v) => BlockNodeV { block_flags: spec_block_flags_from_i16(v), ..p },
            _ => p,
        }
    } else if a.code == 10 || a.code == 20 || a.code == 30 {
        match a.value {
            ValueV::F64(t) => {
                if a.code == 10 {
                    BlockNodeV { base_point: Vec3V { x: t, ..p.base_point }, ..p }
                } else if a.code == 20 {
                    BlockNodeV { base_point: Vec3V { y: t, ..p.base_point }, ..p }
                } else {
                    BlockNodeV { base_point: Vec3V { z: t, ..p.base_point }, ..p }
                }
            },
            _ => p,
        }
    } else if a.code == 1 {
        match a.value {
            ValueV::String(s) => BlockNodeV { xref_path_name: s, ..p },
            _ => p,
        }
    } else if a.code == 4 {
        match a.value {
            ValueV::String(s) => BlockNodeV { description: s, ..p },
            _ => p,
        }
    } else {
        p
    }
}

pub open spec fn spec_decode_block_from(atoms: Seq<AtomV>, p: BlockNodeV) -> BlockNodeV
    decreases atoms.len(),
{
    if atoms.len() == 0 {
        p
    } else {
        spec_decode_block_from(atoms.drop_first(), spec_block_set_atom(p, atoms[0]))
    }
}

/// The block a block node decodes to: its own atoms folded through the
/// table, then each child node decoded as an entity.
pub open spec fn spec_block_node_of(n: NodeV) -> BlockNodeV {
    BlockNodeV {
        entities: Seq::new(n.nodes.len(), |i: int| spec_entity_node_of(n.nodes[i])),
        ..spec_decode_block_from(n.atoms, spec_block_default())
    }
}

impl BlockNode {
    /// Accepts one atom, as [`spec_block_set_atom`] says.
    #[verifier::rlimit(60)]
    fn set_atom(&mut self, a: &Atom)
        ensures
            final(self)@ == spec_block_set_atom(old(self)@, a@),
    {
        match a.code {
            8 => {
                match &a.value {
                    Value::String(s) => {
                        self.layer = clone_string(s);
                    },
                    _ => {},
                }
            },
            2 | 3 => {
                match &a.value {
                    Value::String(s) => {
                        self.block_name = clone_string(s);
                    },
                    _ => {},
                }
            },
            70 => {
                match &a.value {
                    Value::I16(v) => {
                        self.block_flags = block_flags_from_i16(*v);
                    },
                    _ => {},
                }
            },
            10 | 20 | 30 => {
                match &a.value {
                    Value::F64(t) => {
                        if a.code == 10 {
                            self.base_point.x = crate::entity::clone_float(t);
                        } else if a.code == 20 {
                            self.base_point.y = crate::entity::clone_float(t);
                        } else {
                            self.base_point.z = crate::entity::clone_float(t);
                        }
                    },
                    _ => {},
                }
            },
            1 => {
                match &a.value {
                    Value::String(s) => {
                        self.xref_path_name = clone_string(s);
                    },
                    _ => {},
                }
            },
            4 => {
                match &a.value {
                    Value::String(s) => {
                        self.description = clone_string(s);
                    },
                    _ => {},
                }
            },
            _ => {},
        }
    }

    /// Decodes one block node, as [`spec_block_node_of`] says.
    pub fn from_node(source: &Node) -> (r: BlockNode)
        ensures
            r@ == spec_block_node_of(source@),
    {
        let ghost adv = source.atoms.deep_view();
        let mut p = BlockNode {
            handle: 0,
            layer: String::new(),
            block_name: String::new(),
            block_flags: block_flags_from_i16(0),
            base_point: crate::entity::Vec3 {
                x: Float64::default(),
                y: Float64::default(),
                z: Float64::default(),
            },
            xref_path_name: String::new(),
            description: String::new(),
            entities: Vec::new(),
        };
        proof {
            assert(p@ =~= spec_block_default());
            assert(adv.skip(0) =~= adv);
        }
        let n: usize = source.atoms.len();
        let mut i: usize = 0;
        while i < n
            invariant
                0 <= i <= n,
                n == source.atoms@.len(),
                adv == source.atoms.deep_view(),
                adv.len() == n,
                p@.entities.len() == 0,
                spec_decode_block_from(adv, spec_block_default()) == spec_decode_block_from(
                    adv.skip(i as int),
                    p@,
                ),
            decreases n - i,
        {
            proof {
                assert(adv.skip(i as int)[0] == adv[i as int]);
                assert(adv[i as int] == source.atoms@[i as int]@);
                assert(adv.skip(i as int).drop_first() =~= adv.skip(i + 1));
            }
            p.set_atom(&source.atoms[i]);
            i = i + 1;
        }
        proof {
            assert(adv.skip(n as int).len() == 0);
        }
        let m: usize = source.nodes.len();
        let mut j: usize = 0;
        proof {
            crate::node::lemma_nodes_view_index(source.nodes@);
        }
        let mut entities: Vec<EntityNode> = Vec::new();
        while j < m
            invariant
                0 <= j <= m,
                m == source.nodes@.len(),
                source@.nodes.len() == m,
                forall|k: int|
                    0 <= k < m ==> #[trigger] source@.nodes[k] == spec_node_view(
                        source.nodes@[k],
                    ),
                entities.deep_view().len() == j,
                forall|k: int|
                    0 <= k < j ==> #[trigger] entities.deep_view()[k] == spec_entity_node_of(
                        source@.nodes[k],
                    ),
            decreases m - j,
        {
            let e: EntityNode = EntityNode::from_node(&source.nodes[j]);
            let ghost before = entities.deep_view();
            entities.push(e);
            proof {
                assert(entities.deep_view() =~~= before.push(entities@[j as int]@));
            }
            j = j + 1;
        }
        p.entities = entities;
        proof {
            assert(p@.entities =~= spec_block_node_of(source@).entities);
            assert(p@ =~= spec_block_node_of(source@));
        }
        p
    }
}

} // verus!
