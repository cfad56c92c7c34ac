//! The terminal player's Browse tab: its fixed list of pages, selected by row.

use vstd::prelude::*;

verus! {

/// The pages the Browse tab lists, in row order.
#[derive(Clone, Copy, Debug, PartialEq, Eq, Structural)]
pub enum BrowseNode {
    TopTracks,
    RecentlyPlayed,
    FollowedArtists,
    TopArtists,
    WhatsNew,
}

/// The page on row `index` of the Browse tab.
pub open spec fn node_at(index: int) -> BrowseNode {
    if index == 0 {
        BrowseNode::TopTracks
    } else if index == 1 {
        BrowseNode::RecentlyPlayed
    } else if index == 2 {
        BrowseNode::FollowedArtists
    } else if index == 3 {
        BrowseNode::TopArtists
    } else {
        BrowseNode::WhatsNew
    }
}

/// The page on row `index` of the Browse tab; rows past the fourth all pick What's New.
pub fn select_node_from_library_index(index: usize) -> (node: BrowseNode)
    ensures
        node == node_at(index as int),
{
    match index {
        0 => BrowseNode::TopTracks,
        1 => BrowseNode::RecentlyPlayed,
        2 => BrowseNode::FollowedArtists,
        3 => BrowseNode::TopArtists,
        _ => BrowseNode::WhatsNew,
    }
}

/// What entering a Browse page opens.
#[derive(Clone, Copy, Debug, PartialEq, Eq, Structural)]
pub enum BrowseIntent {
    /// The user's top tracks as a track list.
    OpenTopTracks,
    /// The recently played tracks as a track list.
    OpenRecentlyPlayed,
    /// The followed artists as an artist list.
    OpenFollowedArtists,
    /// The user's top artists as an artist list.
    OpenTopArtists,
    /// The What's New feed.
    OpenWhatsNew,
}

/// What entering the page `node` opens.
pub open spec fn intent_for(node: BrowseNode) -> BrowseIntent {
    match node {
        BrowseNode::TopTracks => BrowseIntent::OpenTopTracks,
        BrowseNode::RecentlyPlayed => BrowseIntent::OpenRecentlyPlayed,
        BrowseNode::FollowedArtists => BrowseIntent::OpenFollowedArtists,
        BrowseNode::TopArtists => BrowseIntent::OpenTopArtists,
        BrowseNode::WhatsNew => BrowseIntent::OpenWhatsNew,
    }
}

/// What Enter opens on the Browse page `node`: each page opens its own list.
pub fn enter_active_node(node: BrowseNode) -> (intent: BrowseIntent)
    ensures
        intent == intent_for(node),
{
    match node {
        BrowseNode::TopTracks => BrowseIntent::OpenTopTracks,
        BrowseNode::RecentlyPlayed => BrowseIntent::OpenRecentlyPlayed,
        BrowseNode::FollowedArtists => BrowseIntent::OpenFollowedArtists,
        BrowseNode::TopArtists => BrowseIntent::OpenTopArtists,
        BrowseNode::WhatsNew => BrowseIntent::OpenWhatsNew,
    }
}

/// The first five rows of the Browse tab list five different pages, in the order Top Tracks,
/// Recently Played, Followed Artists, Top Artists, What's New, and every row past them picks
/// What's New; entering different pages opens different lists, each page its own.
pub proof fn lemma_browse_rows_and_pages(i: int, j: int, a: BrowseNode, b: BrowseNode)
    ensures
        0 <= i < j <= 4 ==> node_at(i) != node_at(j),
        i >= 4 ==> node_at(i) == BrowseNode::WhatsNew,
        node_at(0) == BrowseNode::TopTracks && intent_for(node_at(0)) == BrowseIntent::OpenTopTracks,
        node_at(3) == BrowseNode::TopArtists && intent_for(node_at(3)) == BrowseIntent::OpenTopArtists,
        a != b ==> intent_for(a) != intent_for(b),
        intent_for(BrowseNode::FollowedArtists) == BrowseIntent::OpenFollowedArtists,
        intent_for(BrowseNode::RecentlyPlayed) == BrowseIntent::OpenRecentlyPlayed,
        intent_for(BrowseNode::WhatsNew) == BrowseIntent::OpenWhatsNew,
{
}

} // verus!
