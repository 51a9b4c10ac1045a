//! Live station status for a bike-share network: the station registry, the
//! change detection between two polls of the status feed, the snapshot served
//! to readers, the delivery of one push message per changed station and the
//! cache of map thumbnails.
//!
//! Everything here is a function from plain values to plain values. Fetching
//! the feed, talking to the push service, sleeping and running the rendering
//! tools belong to the program that embeds this library; the decisions between
//! those steps are taken here.

pub mod broadcaster;
pub mod changes;
pub mod fcm;
pub mod gbfs;
pub mod station;
pub mod stations_collection;
pub mod synchronizer;
pub mod thumbnailer;
