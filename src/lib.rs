//! Verified core of a DNA nanostructure editor: nucleotide identities, strand topology
//! with undoable edits, the interaction automaton of the 3D view, scadnano import helpers
//! and the small decision tables of the renderers.
pub mod nucl;
pub mod utils;
pub mod automata;
pub mod strands;
pub mod design;
pub mod render;
pub mod scadnano;
pub mod flat;
pub mod rigid;
pub mod save;
pub mod top_bar;
pub mod camera;
pub mod timing;
