//! What a whole stream does to a tile.
//!
//! A tile lives through a sequence of events: commands, and between them the
//! markers that the caller paints for the points. This module says what tile
//! such a sequence leaves, and proves what holds of every stream.

use vstd::prelude::*;
use crate::canvas::{blank_pixels, filled, flattened};
use crate::color::{transparent, Color};
use crate::command::Command;
use crate::tile::{
    after_command, after_marker, empty_layer, finished, initial_tile, marker_of, LayerView, Marker,
    TileView,
};

verus! {

/// One thing that happens to a tile.
pub enum Event {
    /// A command of the stream is carried out.
    Command(Command),
    /// A marker with this outline is painted on the open layer.
    Paint(tiny_skia::Path),
}

/// Whether `event` starts a layer.
pub open spec fn starts_layer(event: Event) -> bool {
    event matches Event::Command(Command::StartLayer { .. })
}

/// The tile after `event`.
pub open spec fn after_event(tile: TileView, event: Event) -> TileView {
    match event {
        Event::Command(command) => after_command(tile, command),
        Event::Paint(outline) => after_marker(tile, outline),
    }
}

/// The tile after `events`, in their order.
pub open spec fn after_events(tile: TileView, events: Seq<Event>) -> TileView
    decreases events.len(),
{
    if events.len() == 0 {
        tile
    } else {
        after_event(after_events(tile, events.drop_last()), events.last())
    }
}

/// What a canvas that held `pixels` holds after `outlines` were filled with
/// `color`, one after the other.
pub open spec fn filled_all(pixels: Seq<u8>, outlines: Seq<tiny_skia::Path>, color: Color) -> Seq<
    u8,
>
    decreases outlines.len(),
{
    if outlines.len() == 0 {
        pixels
    } else {
        filled(filled_all(pixels, outlines.drop_last(), color), outlines.last(), color)
    }
}

/// The events of a run of points: each point, given by its longitude and
/// latitude, is followed by the painting of its marker.
pub open spec fn point_events(points: Seq<(u64, u64)>, outlines: Seq<tiny_skia::Path>) -> Seq<
    Event,
>
    recommends
        points.len() == outlines.len(),
    decreases points.len(),
{
    if points.len() == 0 {
        Seq::empty()
    } else {
        point_events(points.drop_last(), outlines.drop_last()).push(
            Event::Command(Command::Point { lng: points.last().0, lat: points.last().1 }),
        ).push(Event::Paint(outlines.last()))
    }
}

/// Events that follow one another act one after the other.
pub proof fn lemma_after_events_concat(tile: TileView, first: Seq<Event>, second: Seq<Event>)
    ensures
        after_events(tile, first + second) == after_events(after_events(tile, first), second),
    decreases second.len(),
{
    if second.len() > 0 {
        assert((first + second).drop_last() == first + second.drop_last());
        lemma_after_events_concat(tile, first, second.drop_last());
    }
}

/// Whatever is drawn before the first layer is started lands on the default
/// layer. As long as a stream has started no layer, the open layer's markers
/// are fully transparent and of width zero, and the base canvas is empty.
pub proof fn lemma_default_layer_until_first_start(zoom: u8, x: u32, y: u32, events: Seq<Event>)
    requires
        forall|i: int| 0 <= i < events.len() ==> !starts_layer(#[trigger] events[i]),
    ensures
        after_events(initial_tile(zoom, x, y), events).layer.color == transparent(),
        after_events(initial_tile(zoom, x, y), events).layer.width == 0,
        after_events(initial_tile(zoom, x, y), events).image == blank_pixels(),
    decreases events.len(),
{
    if events.len() > 0 {
        lemma_default_layer_until_first_start(zoom, x, y, events.drop_last());
    }
}

/// A point that comes before the first layer is started asks for a marker of
/// width zero.
pub proof fn lemma_zero_width_before_first_start(
    zoom: u8,
    x: u32,
    y: u32,
    events: Seq<Event>,
    command: Command,
)
    requires
        forall|i: int| 0 <= i < events.len() ==> !starts_layer(#[trigger] events[i]),
        command is Point,
    ensures
        marker_of(after_events(initial_tile(zoom, x, y), events), command) matches Some(marker)
            && marker.width == 0,
{
    lemma_default_layer_until_first_start(zoom, x, y, events);
}

/// The tile's place is that of the last `SetTile` command, wherever in the
/// stream it came: moving twice is moving to the second place.
pub proof fn lemma_last_move_wins(tile: TileView, first: Command, second: Command)
    requires
        first is SetTile,
        second is SetTile,
    ensures
        after_command(after_command(tile, first), second) == after_command(tile, second),
{
}

/// Moving the tile leaves both canvases and the open layer's style alone:
/// markers that were painted are not projected again.
pub proof fn lemma_move_keeps_pixels(tile: TileView, command: Command)
    requires
        command is SetTile,
    ensures
        after_command(tile, command).image == tile.image,
        after_command(tile, command).layer == tile.layer,
{
}

/// Only starting a layer changes the base canvas: no other event does.
pub proof fn lemma_base_changes_only_at_layer_start(tile: TileView, event: Event)
    requires
        !starts_layer(event),
    ensures
        after_event(tile, event).image == tile.image,
{
}

/// Layers lie in the order in which they were started. After two layers
/// with one marker each, the finished base canvas holds the default layer,
/// then the first layer, then the second, each flattened over what came
/// before.
pub proof fn lemma_layers_flatten_in_order(
    tile: TileView,
    first: Command,
    first_outline: tiny_skia::Path,
    second: Command,
    second_outline: tiny_skia::Path,
)
    requires
        first is StartLayer,
        second is StartLayer,
    ensures
        finished(
            after_events(
                tile,
                seq![
                    Event::Command(first),
                    Event::Paint(first_outline),
                    Event::Command(second),
                    Event::Paint(second_outline),
                ],
            ),
        ).image == flattened(
            flattened(
                flattened(tile.image, tile.layer.pixels),
                filled(blank_pixels(), first_outline, first->color),
            ),
            filled(blank_pixels(), second_outline, second->color),
        ),
{
    let events = seq![
        Event::Command(first),
        Event::Paint(first_outline),
        Event::Command(second),
        Event::Paint(second_outline),
    ];
    let three = events.drop_last();
    let two = three.drop_last();
    let one = two.drop_last();
    assert(after_events(tile, one.drop_last()) == tile);
    assert(after_events(tile, two) == after_marker(after_events(tile, one), first_outline));
    assert(after_events(tile, events) == after_marker(after_events(tile, three), second_outline));
}

/// A run of points paints one marker each on the open layer, in the layer's
/// color, and changes nothing else.
pub proof fn lemma_points_paint_the_open_layer(
    tile: TileView,
    points: Seq<(u64, u64)>,
    outlines: Seq<tiny_skia::Path>,
)
    requires
        points.len() == outlines.len(),
    ensures
        after_events(tile, point_events(points, outlines)) == (TileView {
            layer: LayerView {
                pixels: filled_all(tile.layer.pixels, outlines, tile.layer.color),
                ..tile.layer
            },
            ..tile
        }),
    decreases points.len(),
{
    if points.len() > 0 {
        let earlier = point_events(points.drop_last(), outlines.drop_last());
        let events = point_events(points, outlines);
        lemma_points_paint_the_open_layer(tile, points.drop_last(), outlines.drop_last());
        assert(events.drop_last().drop_last() == earlier);
        assert(after_events(tile, events) == after_event(
            after_events(tile, events.drop_last()),
            Event::Paint(outlines.last()),
        ));
    }
}

/// A stream that sets the tile, starts one layer and then places points
/// leaves exactly one marker for each point, all in the layer's color, on
/// that layer, whose finishing flattens them onto the base canvas. Each
/// marker is asked for at the tile that was set and with the layer's width.
pub proof fn lemma_one_layer_of_points(
    zoom: u8,
    x: u32,
    y: u32,
    color: Color,
    width: u64,
    points: Seq<(u64, u64)>,
    outlines: Seq<tiny_skia::Path>,
)
    requires
        points.len() == outlines.len(),
    ensures
        ({
            let head = seq![
                Event::Command(Command::SetTile { zoom, x, y }),
                Event::Command(Command::StartLayer { color, width }),
            ];
            let open = after_events(initial_tile(0, 0, 0), head);
            let end = after_events(initial_tile(0, 0, 0), head + point_events(points, outlines));
            &&& open == (TileView {
                zoom,
                x,
                y,
                image: flattened(blank_pixels(), blank_pixels()),
                layer: empty_layer(color, width),
            })
            &&& forall|lng: u64, lat: u64| #[trigger]
                marker_of(open, Command::Point { lng, lat }) == Some(
                    Marker { zoom, x, y, lng, lat, width },
                )
            &&& end.layer.pixels == filled_all(blank_pixels(), outlines, color)
            &&& finished(end).image == flattened(
                flattened(blank_pixels(), blank_pixels()),
                filled_all(blank_pixels(), outlines, color),
            )
        }),
{
    let set = Event::Command(Command::SetTile { zoom, x, y });
    let start = Event::Command(Command::StartLayer { color, width });
    let head = seq![set, start];
    let start_tile = initial_tile(0, 0, 0);
    assert(after_events(start_tile, head.drop_last().drop_last()) == start_tile);
    assert(after_events(start_tile, head.drop_last()) == after_event(start_tile, set));
    lemma_after_events_concat(start_tile, head, point_events(points, outlines));
    lemma_points_paint_the_open_layer(after_events(start_tile, head), points, outlines);
}

} // verus!
