//! The tile being rendered: its place in the grid, its base canvas and its
//! open layer.
//!
//! A tile takes the commands of a stream one by one. Markers are painted on
//! the open layer. Starting a layer first flattens the open one onto the base
//! canvas, so layers lie in the order in which they were started. The base
//! canvas changes in no other way.
//!
//! The tile does no arithmetic on real numbers. For a point it says where the
//! marker belongs, as a [`Marker`]; the caller projects that to pixels, builds
//! the circle's outline and hands it to [`Tile::draw_marker`].

use vstd::prelude::*;
use crate::canvas::{blank_pixels, filled, flattened, png_of, Canvas};
use crate::color::{transparent, Color};
use crate::command::{line_command, parse_line, Command};
use crate::error::RenderError;

verus! {

/// A layer as contracts see it.
pub struct LayerView {
    /// The color of the layer's markers.
    pub color: Color,
    /// The diameter of the layer's markers in pixels, a binary64 bit pattern.
    pub width: u64,
    /// The pixels of the layer's own canvas.
    pub pixels: Seq<u8>,
}

/// A layer that nothing was painted on yet.
pub open spec fn empty_layer(color: Color, width: u64) -> LayerView {
    LayerView { color, width, pixels: blank_pixels() }
}

/// The layer that is open before any was started: fully transparent markers
/// of width 0.0, whose bit pattern is 0.
pub open spec fn default_layer() -> LayerView {
    empty_layer(transparent(), 0)
}

/// Markers of one color and one width, on a canvas of their own.
pub struct Layer {
    marker_color: Color,
    marker_width: u64,
    foreground: Canvas,
}

impl View for Layer {
    type V = LayerView;

    closed spec fn view(&self) -> LayerView {
        LayerView {
            color: self.marker_color,
            width: self.marker_width,
            pixels: self.foreground@,
        }
    }
}

impl Layer {
    /// An empty layer for markers of this color and width.
    pub fn new(marker_color: Color, marker_width: u64) -> (layer: Layer)
        ensures
            layer@ == empty_layer(marker_color, marker_width),
    {
        Layer { marker_color, marker_width, foreground: Canvas::new() }
    }

    /// Paints one marker, given by its outline, in the layer's color. It
    /// blends over what the layer already holds.
    pub fn draw_marker(&mut self, outline: &tiny_skia::Path)
        ensures
            final(self)@ == (LayerView {
                pixels: filled(old(self)@.pixels, *outline, old(self)@.color),
                ..old(self)@
            }),
    {
        self.foreground.fill_path(outline, self.marker_color);
    }

    /// The color of the layer's markers.
    pub fn marker_color(&self) -> (color: Color)
        ensures
            color == self@.color,
    {
        self.marker_color
    }

    /// The diameter of the layer's markers in pixels, a binary64 bit pattern.
    pub fn marker_width(&self) -> (width: u64)
        ensures
            width == self@.width,
    {
        self.marker_width
    }

    /// The layer's canvas.
    pub fn foreground(&self) -> (canvas: &Canvas)
        ensures
            canvas@ == self@.pixels,
    {
        &self.foreground
    }
}

impl Default for Layer {
    /// The layer that is open before any was started.
    fn default() -> (layer: Layer)
        ensures
            layer@ == default_layer(),
    {
        Layer::new(Color { red: 0, green: 0, blue: 0, alpha: 0 }, 0)
    }
}

/// Where a marker belongs: the place of the tile at the time the point was
/// read, the point, and the width of the open layer's markers.
#[derive(Clone, Copy, Debug, PartialEq, Eq, Structural)]
pub struct Marker {
    /// Zoom level of the tile.
    pub zoom: u8,
    /// Column of the tile.
    pub x: u32,
    /// Row of the tile.
    pub y: u32,
    /// Longitude of the point in degrees, a binary64 bit pattern.
    pub lng: u64,
    /// Latitude of the point in degrees, a binary64 bit pattern.
    pub lat: u64,
    /// Diameter of the marker in pixels, a binary64 bit pattern.
    pub width: u64,
}

/// A tile as contracts see it.
pub struct TileView {
    /// Zoom level.
    pub zoom: u8,
    /// Column in the grid of the zoom level.
    pub x: u32,
    /// Row in the grid of the zoom level.
    pub y: u32,
    /// The pixels of the base canvas.
    pub image: Seq<u8>,
    /// The open layer.
    pub layer: LayerView,
}

/// The tile at the start of a stream: nothing on the base canvas, the
/// default layer open.
pub open spec fn initial_tile(zoom: u8, x: u32, y: u32) -> TileView {
    TileView { zoom, x, y, image: blank_pixels(), layer: default_layer() }
}

/// The tile after the open layer was flattened onto the base canvas and
/// `layer` was opened in its place.
pub open spec fn with_layer_replaced(tile: TileView, layer: LayerView) -> TileView {
    TileView { image: flattened(tile.image, tile.layer.pixels), layer, ..tile }
}

/// The tile after `command`.
///
/// Moving the tile touches neither canvas: what was painted stays where it
/// is. A point changes nothing by itself: its marker is painted afterwards.
pub open spec fn after_command(tile: TileView, command: Command) -> TileView {
    match command {
        Command::SetTile { zoom, x, y } => TileView { zoom, x, y, ..tile },
        Command::StartLayer { color, width } => with_layer_replaced(
            tile,
            empty_layer(color, width),
        ),
        Command::Point { .. } => tile,
    }
}

/// The marker that `command` asks for, if it is a point.
pub open spec fn marker_of(tile: TileView, command: Command) -> Option<Marker> {
    match command {
        Command::Point { lng, lat } => Some(
            Marker { zoom: tile.zoom, x: tile.x, y: tile.y, lng, lat, width: tile.layer.width },
        ),
        _ => None,
    }
}

/// The tile after a marker with this outline was painted on the open layer.
pub open spec fn after_marker(tile: TileView, outline: tiny_skia::Path) -> TileView {
    TileView {
        layer: LayerView {
            pixels: filled(tile.layer.pixels, outline, tile.layer.color),
            ..tile.layer
        },
        ..tile
    }
}

/// The tile at the end of a stream: the open layer flattened, the default
/// layer open again.
pub open spec fn finished(tile: TileView) -> TileView {
    with_layer_replaced(tile, default_layer())
}

/// One raster map tile in the making.
pub struct Tile {
    zoom: u8,
    x: u32,
    y: u32,
    image: Canvas,
    layer: Layer,
}

impl View for Tile {
    type V = TileView;

    closed spec fn view(&self) -> TileView {
        TileView { zoom: self.zoom, x: self.x, y: self.y, image: self.image@, layer: self.layer@ }
    }
}

impl Tile {
    /// A tile at this place with an empty base canvas and the default layer
    /// open.
    pub fn new(zoom: u8, x: u32, y: u32) -> (tile: Tile)
        ensures
            tile@ == initial_tile(zoom, x, y),
    {
        Tile { zoom, x, y, image: Canvas::new(), layer: Layer::default() }
    }

    /// Moves the tile. The last move wins; nothing that was painted moves.
    pub fn set_tile(&mut self, zoom: u8, x: u32, y: u32)
        ensures
            final(self)@ == (TileView { zoom, x, y, ..old(self)@ }),
    {
        self.zoom = zoom;
        self.x = x;
        self.y = y;
    }

    /// Says where the marker of the point at this longitude and latitude
    /// belongs.
    pub fn marker_at(&self, lng: u64, lat: u64) -> (marker: Marker)
        ensures
            marker == (Marker {
                zoom: self@.zoom,
                x: self@.x,
                y: self@.y,
                lng,
                lat,
                width: self@.layer.width,
            }),
    {
        Marker {
            zoom: self.zoom,
            x: self.x,
            y: self.y,
            lng,
            lat,
            width: self.layer.marker_width(),
        }
    }

    /// Paints one marker, given by its outline, on the open layer.
    pub fn draw_marker(&mut self, outline: &tiny_skia::Path)
        ensures
            final(self)@ == after_marker(old(self)@, *outline),
    {
        self.layer.draw_marker(outline);
    }

    /// Flattens the open layer onto the base canvas, then opens an empty
    /// layer for markers of this color and width.
    pub fn start_layer(&mut self, marker_color: Color, marker_width: u64)
        ensures
            final(self)@ == with_layer_replaced(
                old(self)@,
                empty_layer(marker_color, marker_width),
            ),
    {
        self.image.draw_canvas(self.layer.foreground());
        self.layer = Layer::new(marker_color, marker_width);
    }

    /// Flattens the open layer onto the base canvas and opens the default
    /// layer in its place. A stream ends with this, once.
    pub fn finish_layer(&mut self)
        ensures
            final(self)@ == finished(old(self)@),
    {
        self.image.draw_canvas(self.layer.foreground());
        self.layer = Layer::default();
    }

    /// Carries out one command. For a point it hands back where the marker
    /// belongs, and paints nothing yet.
    pub fn apply(&mut self, command: Command) -> (marker: Option<Marker>)
        ensures
            final(self)@ == after_command(old(self)@, command),
            marker == marker_of(old(self)@, command),
    {
        match command {
            Command::SetTile { zoom, x, y } => {
                self.set_tile(zoom, x, y);
                None
            },
            Command::StartLayer { color, width } => {
                self.start_layer(color, width);
                None
            },
            Command::Point { lng, lat } => Some(self.marker_at(lng, lat)),
        }
    }

    /// Reads one line of a stream and carries out its command. A line that
    /// is refused leaves the tile as it was.
    pub fn apply_line(&mut self, line: &str) -> (r: Result<Option<Marker>, RenderError>)
        ensures
            match line_command(line@) {
                Ok(command) => {
                    &&& final(self)@ == after_command(old(self)@, command)
                    &&& r == Ok::<Option<Marker>, RenderError>(marker_of(old(self)@, command))
                },
                Err(error) => {
                    &&& final(self)@ == old(self)@
                    &&& r == Err::<Option<Marker>, RenderError>(error)
                },
            },
    {
        match parse_line(line) {
            Ok(command) => Ok(self.apply(command)),
            Err(error) => Err(error),
        }
    }

    /// Encodes the base canvas as a PNG file. What is on the open layer is
    /// not in it.
    pub fn encode_png(&self) -> (r: Result<Vec<u8>, RenderError>)
        ensures
            r matches Ok(bytes) ==> png_of(self@.image) == Some(bytes@),
            r matches Err(e) ==> e == RenderError::Encode && png_of(self@.image) is None,
    {
        self.image.encode_png()
    }

    /// Ends the stream: flattens the open layer and encodes the tile as a
    /// PNG file.
    pub fn finish(self) -> (r: Result<Vec<u8>, RenderError>)
        ensures
            r matches Ok(bytes) ==> png_of(finished(self@).image) == Some(bytes@),
            r matches Err(e) ==> e == RenderError::Encode && png_of(finished(self@).image) is None,
    {
        let mut tile = self;
        tile.finish_layer();
        tile.encode_png()
    }

    /// Zoom level.
    pub fn zoom(&self) -> (zoom: u8)
        ensures
            zoom == self@.zoom,
    {
        self.zoom
    }

    /// Column in the grid of the zoom level.
    pub fn x(&self) -> (x: u32)
        ensures
            x == self@.x,
    {
        self.x
    }

    /// Row in the grid of the zoom level.
    pub fn y(&self) -> (y: u32)
        ensures
            y == self@.y,
    {
        self.y
    }

    /// The base canvas.
    pub fn image(&self) -> (canvas: &Canvas)
        ensures
            canvas@ == self@.image,
    {
        &self.image
    }

    /// The open layer.
    pub fn layer(&self) -> (layer: &Layer)
        ensures
            layer@ == self@.layer,
    {
        &self.layer
    }
}

} // verus!
