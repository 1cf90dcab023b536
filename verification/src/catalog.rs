//! Addresses on a media server that lists what can be played.

use vstd::prelude::*;

verus! {

/// A media server and the account used on it.
#[derive(Debug, Clone, PartialEq, Eq)]
pub struct EmbyServer {
    pub name: String,
    pub url: String,
    pub username: String,
    /// The id of the user, once signed in.
    pub user_id: Option<String>,
    /// The token of the session, once signed in.
    pub access_token: Option<String>,
}

/// `s` without the slashes at its end.
pub open spec fn without_trailing_slashes(s: Seq<char>) -> Seq<char>
    decreases s.len(),
{
    if s.len() > 0 && s.last() == '/' {
        without_trailing_slashes(s.drop_last())
    } else {
        s
    }
}

/// Copies `url` without the slashes at its end.
pub fn trim_trailing_slashes(url: &str) -> (base: String)
    ensures
        base@ == without_trailing_slashes(url@),
{
    let mut end: usize = url.unicode_len();
    assert(url@.subrange(0, end as int) =~= url@);
    while end > 0 && url.get_char(end - 1) == '/'
        invariant
            end <= url@.len(),
            without_trailing_slashes(url@) == without_trailing_slashes(
                url@.subrange(0, end as int),
            ),
        decreases end,
    {
        assert(url@.subrange(0, end as int).drop_last() =~= url@.subrange(0, end - 1));
        end = end - 1;
    }
    String::from_str(url.substring_char(0, end))
}

/// The address a video is streamed from: the server's address, the item
/// and the session token. Empty without a session.
pub open spec fn stream_url_text(server: EmbyServer, item_id: Seq<char>) -> Seq<char> {
    match server.access_token {
        Some(token) => without_trailing_slashes(server.url@) + "/Videos/"@ + item_id
            + "/stream?static=true&api_key="@ + token@,
        None => Seq::empty(),
    }
}

/// Builds the address a video is streamed from.
pub fn get_stream_url(server: &EmbyServer, item_id: &str) -> (url: String)
    ensures
        url@ == stream_url_text(*server, item_id@),
{
    match &server.access_token {
        Some(token) => {
            let mut url = trim_trailing_slashes(server.url.as_str());
            url.append("/Videos/");
            url.append(item_id);
            url.append("/stream?static=true&api_key=");
            url.append(token.as_str());
            assert(url@ =~= stream_url_text(*server, item_id@));
            url
        },
        None => String::new(),
    }
}

/// The address of a picture of an item: its poster, or its backdrop.
pub open spec fn image_url_text(
    server: EmbyServer,
    item_id: Seq<char>,
    tag: Seq<char>,
    is_backdrop: bool,
) -> Seq<char> {
    without_trailing_slashes(server.url@) + "/Items/"@ + item_id + "/Images/"@ + (if is_backdrop {
        "Backdrop"@
    } else {
        "Primary"@
    }) + "?tag="@ + tag + "&quality=90"@
}

/// Builds the address of a picture of an item.
pub fn get_image_url(server: &EmbyServer, item_id: &str, tag: &str, is_backdrop: bool) -> (url:
    String)
    ensures
        url@ == image_url_text(*server, item_id@, tag@, is_backdrop),
{
    let mut url = trim_trailing_slashes(server.url.as_str());
    url.append("/Items/");
    url.append(item_id);
    url.append("/Images/");
    if is_backdrop {
        url.append("Backdrop");
    } else {
        url.append("Primary");
    }
    url.append("?tag=");
    url.append(tag);
    url.append("&quality=90");
    assert(url@ =~= image_url_text(*server, item_id@, tag@, is_backdrop));
    url
}

/// The address a user signs in at.
pub fn auth_url(server: &EmbyServer) -> (url: String)
    ensures
        url@ == without_trailing_slashes(server.url@) + "/Users/AuthenticateByName"@,
{
    let mut url = trim_trailing_slashes(server.url.as_str());
    url.append("/Users/AuthenticateByName");
    url
}

/// What is listed of a server.
#[derive(Debug, Clone, PartialEq, Eq)]
pub enum Listing {
    /// The libraries of the user.
    Views,
    /// What the user has begun to watch.
    Resume,
    /// The movies and series below an item, newest first.
    Descendants(String),
    /// What lies directly in an item, by name.
    Children(String),
    /// The episodes of a series.
    Episodes(String),
}

/// The fields asked for of the entries of a library overview.
pub open spec fn overview_fields() -> Seq<char> {
    "Fields=PrimaryImageAspectRatio,Overview,ProductionYear"@
        + ",CommunityRating,OfficialRating"@
}

/// The fields asked for of the items below a parent.
pub open spec fn item_fields() -> Seq<char> {
    "Fields=Overview,PrimaryImageAspectRatio,ProductionYear"@
        + ",CommunityRating,OfficialRating"@ + ",BackdropImageTags,ChildCount,RecursiveItemCount"@
}

/// The part of a listing's address that follows the user.
pub open spec fn listing_path(listing: Listing) -> Seq<char> {
    match listing {
        Listing::Views => "/Views?"@ + overview_fields(),
        Listing::Resume => "/Items/Resume?Limit=12&Recursive=true&"@ + overview_fields(),
        Listing::Descendants(parent) => "/Items?ParentId="@ + parent@
            + "&Recursive=true&IncludeItemTypes=Movie,Series"@
            + "&SortBy=DateCreated,SortName&SortOrder=Descending&"@ + item_fields(),
        Listing::Children(parent) => "/Items?ParentId="@ + parent@ + "&SortBy=SortName&"@
            + item_fields(),
        Listing::Episodes(series) => "/Items?ParentId="@ + series@
            + "&Recursive=true&IncludeItemTypes=Episode"@,
    }
}

/// The address of a listing for the user who is signed in.
pub open spec fn listing_url_text(server: EmbyServer, listing: Listing) -> Option<Seq<char>> {
    match (server.access_token, server.user_id) {
        (Some(_), Some(user)) => Some(
            without_trailing_slashes(server.url@) + "/Users/"@ + user@ + listing_path(listing),
        ),
        _ => None,
    }
}

fn push_overview_fields(url: &mut String)
    ensures
        final(url)@ == old(url)@ + overview_fields(),
{
    url.append("Fields=PrimaryImageAspectRatio,Overview,ProductionYear");
    url.append(",CommunityRating,OfficialRating");
    assert(url@ =~= old(url)@ + overview_fields());
}

fn push_item_fields(url: &mut String)
    ensures
        final(url)@ == old(url)@ + item_fields(),
{
    url.append("Fields=Overview,PrimaryImageAspectRatio,ProductionYear");
    url.append(",CommunityRating,OfficialRating");
    url.append(",BackdropImageTags,ChildCount,RecursiveItemCount");
    assert(url@ =~= old(url)@ + item_fields());
}

/// Builds the address of a listing. There is none before the user has
/// signed in.
pub fn listing_url(server: &EmbyServer, listing: &Listing) -> (url: Option<String>)
    ensures
        match (url, listing_url_text(*server, *listing)) {
            (Some(u), Some(text)) => u@ == text,
            (None, None) => true,
            _ => false,
        },
{
    if server.access_token.is_none() {
        return None;
    }
    match &server.user_id {
        Some(user) => {
            let mut url = trim_trailing_slashes(server.url.as_str());
            url.append("/Users/");
            url.append(user.as_str());
            match listing {
                Listing::Views => {
                    url.append("/Views?");
                    push_overview_fields(&mut url);
                },
                Listing::Resume => {
                    url.append("/Items/Resume?Limit=12&Recursive=true&");
                    push_overview_fields(&mut url);
                },
                Listing::Descendants(parent) => {
                    url.append("/Items?ParentId=");
                    url.append(parent.as_str());
                    url.append("&Recursive=true&IncludeItemTypes=Movie,Series");
                    url.append("&SortBy=DateCreated,SortName&SortOrder=Descending&");
                    push_item_fields(&mut url);
                },
                Listing::Children(parent) => {
                    url.append("/Items?ParentId=");
                    url.append(parent.as_str());
                    url.append("&SortBy=SortName&");
                    push_item_fields(&mut url);
                },
                Listing::Episodes(series) => {
                    url.append("/Items?ParentId=");
                    url.append(series.as_str());
                    url.append("&Recursive=true&IncludeItemTypes=Episode");
                },
            }
            assert(url@ =~= listing_url_text(*server, *listing).unwrap());
            Some(url)
        },
        None => None,
    }
}

/// Which listing shows what an item holds: the libraries at the top, the
/// movies and series anywhere below an item when browsing, and an item's
/// own children otherwise.
pub fn items_listing(parent_id: Option<String>, recursive: bool) -> (listing: Listing)
    ensures
        listing == match parent_id {
            Some(parent) => if recursive {
                Listing::Descendants(parent)
            } else {
                Listing::Children(parent)
            },
            None => Listing::Views,
        },
{
    match parent_id {
        Some(parent) => if recursive {
            Listing::Descendants(parent)
        } else {
            Listing::Children(parent)
        },
        None => Listing::Views,
    }
}

} // verus!
