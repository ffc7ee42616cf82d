use vstd::prelude::*;

use crate::text::has_prefix;

verus! {

/// The address of the automation server that a running Zotero offers.
pub open spec fn default_base_url() -> Seq<char> {
    "http://127.0.0.1:23119"@
}

/// The start of every item link.
pub open spec fn select_link_prefix() -> Seq<char> {
    "zotero://select/items/"@
}

/// Where a running Zotero answers requests.
#[derive(Debug)]
pub struct ZoteroServer {
    pub base_url: String,
}

impl Default for ZoteroServer {
    fn default() -> (r: ZoteroServer)
        ensures
            r.base_url@ == default_base_url(),
    {
        ZoteroServer { base_url: String::from_str("http://127.0.0.1:23119") }
    }
}

impl ZoteroServer {
    /// The request for the attachment paths of the item that `link` selects,
    /// e.g. `zotero://select/items/1_BHDGEJJP`; none for another link.
    pub fn attachment_url(&self, link: &str) -> (r: Option<String>)
        ensures
            r is Some <==> select_link_prefix().is_prefix_of(link@),
            r is Some ==> r->Some_0@ == self.base_url@ + "/zotxt/items?key="@ + link@.skip(
                select_link_prefix().len() as int,
            ) + "&format=paths"@,
    {
        proof {
            reveal_strlit("zotero://select/items/");
        }
        if has_prefix(link, "zotero://select/items/") {
            let n = link.unicode_len();
            let mut r = String::from_str(self.base_url.as_str());
            r.append("/zotxt/items?key=");
            r.append(link.substring_char(22, n));
            r.append("&format=paths");
            Some(r)
        } else {
            None
        }
    }

    /// The request for the attachment paths of the items selected in Zotero.
    pub fn selected_paths_url(&self) -> (r: String)
        ensures
            r@ == self.base_url@ + "/zotxt/items?selected=selected&format=paths"@,
    {
        String::from_str(self.base_url.as_str()).concat("/zotxt/items?selected=selected&format=paths")
    }

    /// The request for the keys of the items selected in Zotero.
    pub fn selected_key_url(&self) -> (r: String)
        ensures
            r@ == self.base_url@ + "/zotxt/items?selected=selected&format=key"@,
    {
        String::from_str(self.base_url.as_str()).concat("/zotxt/items?selected=selected&format=key")
    }

    /// The request that saves new items through the connector.
    pub fn save_items_url(&self) -> (r: String)
        ensures
            r@ == self.base_url@ + "/connector/saveItems"@,
    {
        String::from_str(self.base_url.as_str()).concat("/connector/saveItems")
    }
}

/// One item of the server's answer: its key and its attachment paths.
#[derive(Debug)]
pub struct ResponseItem {
    pub key: String,
    pub paths: Vec<String>,
}

/// The first path of the first item of an answer, if there is one.
pub fn first_attachment_path(resp: &Vec<ResponseItem>) -> (r: Option<String>)
    ensures
        r is Some <==> resp@.len() > 0 && resp@[0].paths@.len() > 0,
        r is Some ==> r->Some_0 == resp@[0].paths@[0],
{
    if resp.len() > 0 && resp[0].paths.len() > 0 {
        Some(resp[0].paths[0].clone())
    } else {
        None
    }
}

/// The first path of the selected item, where exactly one item is selected
/// and it has a path.
pub fn selected_item_path(resp: &Vec<ResponseItem>) -> (r: Option<String>)
    ensures
        r is Some <==> resp@.len() == 1 && resp@[0].paths@.len() > 0,
        r is Some ==> r->Some_0 == resp@[0].paths@[0],
{
    if resp.len() == 1 && resp[0].paths.len() > 0 {
        Some(resp[0].paths[0].clone())
    } else {
        None
    }
}

/// The link of the selected item, where exactly one item is selected.
pub fn selected_item_uri(resp: &Vec<ResponseItem>) -> (r: Option<String>)
    ensures
        r is Some <==> resp@.len() == 1,
        r is Some ==> r->Some_0@ == select_link_prefix() + resp@[0].key@,
{
    if resp.len() == 1 {
        Some(String::from_str("zotero://select/items/").concat(resp[0].key.as_str()))
    } else {
        None
    }
}

/// An author of an item saved through the connector.
#[derive(Debug)]
pub struct Creator {
    pub first_name: String,
    pub last_name: String,
}

impl Default for Creator {
    fn default() -> (r: Creator)
        ensures
            r.first_name@ == "Wenping"@,
            r.last_name@ == "Guo"@,
    {
        Creator { first_name: String::from_str("Wenping"), last_name: String::from_str("Guo") }
    }
}

/// A file attached to an item saved through the connector.
#[derive(Debug)]
pub struct Attachment {
    pub title: String,
    pub url: String,
    pub mime_type: String,
    pub snapshot: bool,
    pub proxy: bool,
}

impl Default for Attachment {
    fn default() -> (r: Attachment)
        ensures
            r.title@ == "research note"@,
            r.url@ == "http://localhost:8000/life.note"@,
            r.mime_type@ == "application/x-note"@,
            r.snapshot,
            !r.proxy,
    {
        Attachment {
            title: String::from_str("research note"),
            url: String::from_str("http://localhost:8000/life.note"),
            mime_type: String::from_str("application/x-note"),
            snapshot: true,
            proxy: false,
        }
    }
}

/// An item saved through the connector.
#[derive(Debug)]
pub struct ConnectorItem {
    pub item_type: String,
    pub title: String,
    pub extra: String,
    pub place: String,
    pub date: String,
    pub creators: Vec<Creator>,
    pub attachments: Vec<Attachment>,
}

impl Default for ConnectorItem {
    /// A report with a note attached.
    fn default() -> (r: ConnectorItem)
        ensures
            r.item_type@ == "report"@,
            r.title@ == "research.note"@,
            r.extra@ == "this is a test"@,
            r.place@ == "Beijing"@,
            r.date@ == "2020/08/01"@,
            r.creators@.len() == 1,
            r.creators@[0].first_name@ == "Wenping"@,
            r.creators@[0].last_name@ == "Guo"@,
            r.attachments@.len() == 1,
            r.attachments@[0].mime_type@ == "application/x-note"@,
    {
        ConnectorItem {
            item_type: String::from_str("report"),
            title: String::from_str("research.note"),
            extra: String::from_str("this is a test"),
            place: String::from_str("Beijing"),
            date: String::from_str("2020/08/01"),
            creators: vec![Creator::default()],
            attachments: vec![Attachment::default()],
        }
    }
}

} // verus!
