// Reading program database (PDB) files and dumping their records.
//
// `container` opens the multi-stream container and hands out its streams; `records` walks
// length-prefixed record streams; `symbols` and `types` decode symbol and type records;
// `dbi` reads the module table; `address` maps section offsets to relative virtual
// addresses; `dump` and `driver` compose them into what a dump shows.
pub mod address;
pub mod container;
pub mod dbi;
pub mod driver;
pub mod dump;
pub mod records;
pub mod symbols;
pub mod types;
