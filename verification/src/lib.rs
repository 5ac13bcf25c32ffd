//! Static assets for a document compiler: ICU data tables, ICC color
//! profiles, and bundled fonts.
//!
//! Fonts travel as a single gzip-compressed tar archive that is produced at
//! build time by [`pack_fonts`] and unpacked at run time by [`fonts`]; the
//! fixed-size assets are carried by an [`AssetCatalog`] built once at process
//! start from the loaded asset bytes.

mod archive;
mod bundle;
mod catalog;

pub use archive::gunzip_of;
pub use archive::gzip_wf;
pub use archive::tar_entries_of;
pub use archive::tar_pack_ok;
pub use archive::tar_wf;
pub use bundle::datas_of;
pub use bundle::fonts;
pub use bundle::names_of;
pub use bundle::lemma_disabled_empty;
pub use bundle::lemma_fonts_idempotent;
pub use bundle::lemma_pack_then_unpack;
pub use bundle::pack_fonts;
pub use bundle::packs_to;
pub use bundle::spec_fonts;
pub use bundle::spec_unpacked;
pub use bundle::total_len;
pub use bundle::total_size;
pub use bundle::ArchiveError;
pub use bundle::FontFile;
pub use bundle::FontSource;
pub use catalog::AssetCatalog;
