//! The namespace under which an embedding host finds the two sessions.

use vstd::prelude::*;

verus! {

/// The kinds of session that the module offers.
#[derive(Debug, Clone, Copy, PartialEq, Eq, Structural)]
pub enum SessionClass {
    /// `BZ2Decompressor`.
    Decompressor,
    /// `BZ2Compressor`.
    Compressor,
}

/// One name that the module exports, and the kind of session it stands for.
#[derive(Debug, Clone, Copy)]
pub struct ClassEntry {
    /// The name the host looks the session up by.
    pub name: &'static str,
    /// The kind of session made under that name.
    pub class: SessionClass,
}

/// A module: its name and what it exports, in the order of registration.
#[derive(Debug)]
pub struct Module {
    /// The name of the module.
    pub name: &'static str,
    /// What the module exports.
    pub classes: Vec<ClassEntry>,
}

/// Whether `entry` exports a session of kind `class` under `name`.
pub open spec fn exports(entry: ClassEntry, name: Seq<char>, class: SessionClass) -> bool {
    entry.name@ == name && entry.class == class
}

/// Builds the module `_bz2`, which exports the decompressor and the
/// compressor under their names, in this order.
pub fn make_module() -> (module: Module)
    ensures
        module.name@ == "_bz2"@,
        module.classes@.len() == 2,
        exports(module.classes@[0], "BZ2Decompressor"@, SessionClass::Decompressor),
        exports(module.classes@[1], "BZ2Compressor"@, SessionClass::Compressor),
{
    let mut classes: Vec<ClassEntry> = Vec::new();
    classes.push(ClassEntry { name: "BZ2Decompressor", class: SessionClass::Decompressor });
    classes.push(ClassEntry { name: "BZ2Compressor", class: SessionClass::Compressor });
    Module { name: "_bz2", classes }
}

} // verus!
