//! Chapter feeds.

use crate::schema::common::OrderType;
use vstd::prelude::*;

verus! {

/// By what a feed of chapters is sorted.
#[derive(Clone, Copy, Debug, PartialEq, Eq, Hash, Structural)]
pub enum FeedOrder {
    Volume(OrderType),
    Chapter(OrderType),
}

} // verus!
