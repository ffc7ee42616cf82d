//! Read-only access to a Zotero library: item keys and deep links, records
//! assembled from field rows, attachment paths, aligned one-line listings, the
//! row filters of the item queries, and the freshness rule of a cached copy of
//! the database file.

pub mod error;
pub mod text;
pub mod link;
pub mod display;
pub mod item;
pub mod rec;
pub mod query;
pub mod attachment;
pub mod cache;
pub mod profile;
pub mod server;

pub use error::Error;
pub use link::{get_item_key_from_link, item_link_of, parse_zotero_key_from_object_url};
pub use display::{get_aligned_string, pad_to_width};
pub use item::{Item, TITLE_WIDTH};
pub use query::{
    contains_key, select_keys_by_folded_name, select_keys_by_name, select_related_keys, NamedRow, RelationRow, ATTACHMENT_ITEM_TYPE,
    RELATED_PREDICATE,
};
pub use text::contains_str;
pub use attachment::{full_attachment_path, select_attachment_paths, ItemAttachment};
pub use cache::{cache_sync_action, FileTime, SyncAction};
pub use profile::{default_profile_path, parse_zotero_data_dir_from_pref_js, IniSection};
pub use server::{
    first_attachment_path, selected_item_path, selected_item_uri, Attachment, ConnectorItem, Creator,
    ResponseItem, ZoteroServer,
};
pub use rec::Rec;
