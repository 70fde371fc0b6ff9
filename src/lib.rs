//! Code table and framing geometry for self-describing primitives of a
//! text/binary codec: a selector identifies the primitive and fixes how many
//! characters of the encoded text are header and how many are value.

pub mod matter;
