//! Reading and writing the save files in which a game keeps its levels.
//!
//! A save file is a markup document, packed: [`raw_loader`] unpacks it. The
//! document holds levels, each a list of keyed fields: [`extractor`] reads
//! them into [`rawlevel::RawLevel`]s in one pass over the events of the
//! document, and [`xml_writer`] writes them back. [`round_trip`] proves that
//! the two undo each other. [`markup`] is the gateway to the XML reader and
//! writer.
//!
//! For the nested parts of a save there are typed values, [`raw_node`] and
//! [`node`], and a tree to keep them in, [`data_tree`].

pub mod data_tree;
pub mod extractor;
pub mod markup;
pub mod node;
pub mod number;
pub mod raw_loader;
pub mod raw_node;
pub mod rawlevel;
pub mod round_trip;
pub mod text;
pub mod xml_writer;
