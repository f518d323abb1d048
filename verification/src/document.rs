//! Whole documents: maps and tilesets, from events or from text.

use crate::element::Element;
use crate::element::ElementView;
use crate::element::Kind;
use crate::error::Error;
use crate::error::ErrorView;
use crate::event::document_events;
use crate::event::tokenize;
use crate::event::Event;
use crate::event::EventView;
use crate::model::tile_map::TileMap;
use crate::model::tile_map::TileMapView;
use crate::model::tileset::Tileset;
use crate::model::tileset::TilesetView;
use crate::reader::read_document;
use crate::reader::read_root;
use crate::text::views;
use vstd::prelude::*;

verus! {

/// The map that the events of a map document describe, or why there is
/// none. The root must be an element `map`. (A root read as a map is a map:
/// the middle case never arises.)
pub open spec fn map_of(events: Seq<EventView>) -> Result<TileMapView, ErrorView> {
    match read_root(Kind::TileMap, events, 0) {
        Ok(ElementView::TileMap(map)) => Ok(map),
        Ok(_) => Err(ErrorView::BadXml),
        Err(e) => Err(e),
    }
}

/// The tileset that the events of a tileset document describe, or why
/// there is none. The root must be an element `tileset`. (A root read as a
/// tileset is a tileset: the middle case never arises.)
pub open spec fn tileset_of(events: Seq<EventView>) -> Result<TilesetView, ErrorView> {
    match read_root(Kind::Tileset, events, 0) {
        Ok(ElementView::Tileset(tileset)) => Ok(tileset),
        Ok(_) => Err(ErrorView::BadXml),
        Err(e) => Err(e),
    }
}

/// Whether an outcome of reading a map is the one that the model describes.
pub open spec fn map_agrees(
    result: Result<TileMap, Error>,
    model: Result<TileMapView, ErrorView>,
) -> bool {
    match model {
        Ok(map) => result is Ok && result->Ok_0@ == map,
        Err(e) => result is Err && result->Err_0@ == e,
    }
}

/// Whether an outcome of reading a tileset is the one that the model
/// describes.
pub open spec fn tileset_agrees(
    result: Result<Tileset, Error>,
    model: Result<TilesetView, ErrorView>,
) -> bool {
    match model {
        Ok(tileset) => result is Ok && result->Ok_0@ == tileset,
        Err(e) => result is Err && result->Err_0@ == e,
    }
}

/// Builds a map from the events of a map document.
pub fn read_map(events: &Vec<Event>) -> (result: Result<TileMap, Error>)
    ensures
        map_agrees(result, map_of(views(events@))),
{
    match read_document(Kind::TileMap, events) {
        Ok(Element::TileMap(map)) => Ok(map),
        Ok(_) => Err(Error::BadXml),
        Err(e) => Err(e),
    }
}

/// Builds a tileset from the events of a tileset document.
pub fn read_tileset(events: &Vec<Event>) -> (result: Result<Tileset, Error>)
    ensures
        tileset_agrees(result, tileset_of(views(events@))),
{
    match read_document(Kind::Tileset, events) {
        Ok(Element::Tileset(tileset)) => Ok(tileset),
        Ok(_) => Err(Error::BadXml),
        Err(e) => Err(e),
    }
}

/// Reads a map document from its text. The outcome is a function of the
/// text alone: the map that the document's events describe.
pub fn parse_map(text: &str) -> (result: Result<TileMap, Error>)
    ensures
        map_agrees(result, map_of(document_events(text@))),
{
    let events = tokenize(text);
    read_map(&events)
}

/// Reads a tileset document from its text. The outcome is a function of
/// the text alone: the tileset that the document's events describe.
pub fn parse_tileset(text: &str) -> (result: Result<Tileset, Error>)
    ensures
        tileset_agrees(result, tileset_of(document_events(text@))),
{
    let events = tokenize(text);
    read_tileset(&events)
}

/// Reading is deterministic: two readings of one text end alike, with
/// equal maps or with equal errors.
pub proof fn lemma_parse_map_is_deterministic(
    text: Seq<char>,
    first: Result<TileMap, Error>,
    second: Result<TileMap, Error>,
)
    requires
        map_agrees(first, map_of(document_events(text))),
        map_agrees(second, map_of(document_events(text))),
    ensures
        first is Ok <==> second is Ok,
        first is Ok ==> first->Ok_0@ == second->Ok_0@,
        first is Err ==> first->Err_0@ == second->Err_0@,
{
}

/// Reading is deterministic: two readings of one text end alike, with
/// equal tilesets or with equal errors.
pub proof fn lemma_parse_tileset_is_deterministic(
    text: Seq<char>,
    first: Result<Tileset, Error>,
    second: Result<Tileset, Error>,
)
    requires
        tileset_agrees(first, tileset_of(document_events(text))),
        tileset_agrees(second, tileset_of(document_events(text))),
    ensures
        first is Ok <==> second is Ok,
        first is Ok ==> first->Ok_0@ == second->Ok_0@,
        first is Err ==> first->Err_0@ == second->Err_0@,
{
}

impl std::str::FromStr for TileMap {
    type Err = Error;

    /// Reads a map document, as [`parse_map`] does.
    fn from_str(text: &str) -> (result: Result<TileMap, Error>)
        ensures
            map_agrees(result, map_of(document_events(text@))),
    {
        parse_map(text)
    }
}

impl std::str::FromStr for Tileset {
    type Err = Error;

    /// Reads a tileset document, as [`parse_tileset`] does.
    fn from_str(text: &str) -> (result: Result<Tileset, Error>)
        ensures
            tileset_agrees(result, tileset_of(document_events(text@))),
    {
        parse_tileset(text)
    }
}

} // verus!
