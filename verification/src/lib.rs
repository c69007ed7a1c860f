//! The working parts of a small command line tool, stated over plain values
//! and verified.
//!
//! The core is message authentication behind one interface: a keyed hash and
//! a public-key signature scheme, selected by a [`TextSignFormat`], with key
//! generation, signing and verification. Around it stand password
//! generation, tags as text, the conversion of tables to JSON or YAML, and
//! the replies of a file server. Reading and writing are left to the caller.

pub mod cli;
pub mod csv_convert;
pub mod encoding;
pub mod error;
pub mod format;
pub mod gen_pass;
pub mod generate;
pub mod http_server;
pub mod laws;
pub mod primitives;
pub mod text;

pub use cli::{
    verdict_line, GenPassOpts, TextKeyGenerateOpts, TextSignOpts, TextSubCommand, TextVerifyOpts,
};
pub use csv_convert::{
    label_record, parse_output_format, process_csv, ConvertError, OutputFormat,
};
pub use encoding::{decode_tag, encode_tag};
pub use error::TextError;
pub use format::{parse_format, TextSignFormat};
pub use gen_pass::{process_genpass, CharClass, GenPassError};
pub use generate::{key_artifacts, process_text_generate};
pub use http_server::{file_reply, FileRead};
pub use text::{
    process_text_sign, process_text_verify, Blake3, Ed25519Signer, Ed25519Verifyer, TextSign,
    TextVerify,
};
