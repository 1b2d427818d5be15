//! The commands of a stream, and the line format that spells them.
//!
//! A line is one character of command code followed by a JSON payload:
//!
//! ```text
//! T {"zoom": 9, "x": 268, "y": 179}
//! L {"marker-fill": "#880033", "marker-width": 6.0}
//! P [15.417046, 47.07289]
//! ```

use vstd::prelude::*;
use vstd::string::*;
use crate::color::{color_of, parse_color, Color};
use crate::error::RenderError;
use crate::json::{
    element, json_document, json_element, json_integer, json_is_array, json_is_object,
    json_member, json_number, json_string, member, number_bits, parse_json,
};

verus! {

/// The width of a layer's markers where the layer names none: the bit
/// pattern of the binary64 number 6.0.
pub const DEFAULT_MARKER_WIDTH: u64 = 0x4018_0000_0000_0000;

/// One step of a stream.
///
/// Real numbers are held as binary64 bit patterns.
#[derive(Clone, Copy, Debug, PartialEq, Eq, Structural)]
pub enum Command {
    /// Move the tile to column `x`, row `y` of the grid at level `zoom`.
    SetTile { zoom: u8, x: u32, y: u32 },
    /// Flatten the open layer and open a new one, whose markers are circles
    /// of this color and of diameter `width` pixels.
    StartLayer { color: Color, width: u64 },
    /// Place a marker at this longitude and latitude, in degrees.
    Point { lng: u64, lat: u64 },
}

/// The low 8 bits of `value`, as an unsigned number.
pub open spec fn low_8_bits(value: i64) -> u8 {
    (value as int % 0x100) as u8
}

/// The low 32 bits of `value`, as an unsigned number.
pub open spec fn low_32_bits(value: i64) -> u32 {
    (value as int % 0x1_0000_0000) as u32
}

/// `field`, or 0 where the field is absent.
pub open spec fn or_zero(field: Option<i64>) -> i64 {
    match field {
        Some(value) => value,
        None => 0,
    }
}

/// `field`, or `default` where the field is absent.
pub open spec fn number_or(field: Option<u64>, default: u64) -> u64 {
    match field {
        Some(bits) => bits,
        None => default,
    }
}

/// The command that a `T` line with these fields spells. An absent field
/// counts as 0; a field that does not fit its width keeps its low bits.
pub open spec fn tile_command(zoom: Option<i64>, x: Option<i64>, y: Option<i64>) -> Command {
    Command::SetTile {
        zoom: low_8_bits(or_zero(zoom)),
        x: low_32_bits(or_zero(x)),
        y: low_32_bits(or_zero(y)),
    }
}

/// The command that an `L` line with these fields spells, or the error it
/// earns. The fill must be there and must be a color; an absent width counts
/// as [`DEFAULT_MARKER_WIDTH`].
pub open spec fn layer_command(fill: Option<Seq<char>>, width: Option<u64>) -> Result<
    Command,
    RenderError,
> {
    match fill {
        Some(text) => match color_of(text) {
            Some(color) => Ok(
                Command::StartLayer { color, width: number_or(width, DEFAULT_MARKER_WIDTH) },
            ),
            None => Err(RenderError::ColorFormat),
        },
        None => Err(RenderError::ColorFormat),
    }
}

/// The command that a `P` line with these coordinates spells. An absent
/// coordinate counts as 0.0, whose bit pattern is 0.
pub open spec fn point_command(lng: Option<u64>, lat: Option<u64>) -> Command {
    Command::Point { lng: number_or(lng, 0), lat: number_or(lat, 0) }
}

/// The command that the code `code` spells with the parsed payload `value`,
/// or the error it earns.
///
/// `T` and `L` take a JSON object, `P` a JSON array: any other payload is a
/// payload error. A field of the wrong JSON type counts as absent. Any other
/// code is a protocol error.
pub open spec fn command_of(code: char, value: serde_json::Value) -> Result<Command, RenderError> {
    if code == 'T' {
        if json_is_object(value) {
            Ok(
                tile_command(
                    json_integer(json_member(value, "zoom"@)),
                    json_integer(json_member(value, "x"@)),
                    json_integer(json_member(value, "y"@)),
                ),
            )
        } else {
            Err(RenderError::Payload)
        }
    } else if code == 'L' {
        if json_is_object(value) {
            layer_command(
                json_string(json_member(value, "marker-fill"@)),
                json_number(json_member(value, "marker-width"@)),
            )
        } else {
            Err(RenderError::Payload)
        }
    } else if code == 'P' {
        if json_is_array(value) {
            Ok(
                point_command(
                    json_number(json_element(value, 0)),
                    json_number(json_element(value, 1)),
                ),
            )
        } else {
            Err(RenderError::Payload)
        }
    } else {
        Err(RenderError::Protocol)
    }
}

/// The command that `line` spells, or the error it earns.
///
/// The first character is the code, the rest is the payload. An empty line
/// has no code: a protocol error. A payload that is not JSON is a payload
/// error, whatever the code.
pub open spec fn line_command(line: Seq<char>) -> Result<Command, RenderError> {
    if line.len() == 0 {
        Err(RenderError::Protocol)
    } else {
        match json_document(line.skip(1)) {
            Some(value) => command_of(line[0], value),
            None => Err(RenderError::Payload),
        }
    }
}

impl Command {
    /// Builds the command of a `T` line from its fields as they were read.
    pub fn set_tile(zoom: Option<i64>, x: Option<i64>, y: Option<i64>) -> (command: Command)
        ensures
            command == tile_command(zoom, x, y),
    {
        let zoom = match zoom {
            Some(value) => value,
            None => 0,
        };
        let x = match x {
            Some(value) => value,
            None => 0,
        };
        let y = match y {
            Some(value) => value,
            None => 0,
        };
        assert(zoom as u8 == (zoom as int % 0x100) as u8) by (bit_vector);
        assert(x as u32 == (x as int % 0x1_0000_0000) as u32) by (bit_vector);
        assert(y as u32 == (y as int % 0x1_0000_0000) as u32) by (bit_vector);
        Command::SetTile {
            zoom: #[verifier::truncate]
            (zoom as u8),
            x: #[verifier::truncate]
            (x as u32),
            y: #[verifier::truncate]
            (y as u32),
        }
    }

    /// Builds the command of an `L` line from its fields as they were read.
    pub fn start_layer(fill: Option<&str>, width: Option<u64>) -> (r: Result<Command, RenderError>)
        ensures
            r == layer_command(
                match fill {
                    Some(text) => Some(text@),
                    None => None,
                },
                width,
            ),
    {
        let text = match fill {
            Some(text) => text,
            None => {
                return Err(RenderError::ColorFormat);
            },
        };
        match parse_color(text) {
            Some(color) => {
                let width = match width {
                    Some(bits) => bits,
                    None => DEFAULT_MARKER_WIDTH,
                };
                Ok(Command::StartLayer { color, width })
            },
            None => Err(RenderError::ColorFormat),
        }
    }

    /// Builds the command of a `P` line from its coordinates as they were
    /// read.
    pub fn point(lng: Option<u64>, lat: Option<u64>) -> (command: Command)
        ensures
            command == point_command(lng, lat),
    {
        let lng = match lng {
            Some(bits) => bits,
            None => 0,
        };
        let lat = match lat {
            Some(bits) => bits,
            None => 0,
        };
        Command::Point { lng, lat }
    }

    /// Builds the command that `code` spells with an already parsed payload.
    pub fn from_payload(code: char, value: &serde_json::Value) -> (r: Result<Command, RenderError>)
        ensures
            r == command_of(code, *value),
    {
        if code == 'T' {
            if !value.is_object() {
                return Err(RenderError::Payload);
            }
            let zoom = member(value, "zoom").as_i64();
            let x = member(value, "x").as_i64();
            let y = member(value, "y").as_i64();
            Ok(Command::set_tile(zoom, x, y))
        } else if code == 'L' {
            if !value.is_object() {
                return Err(RenderError::Payload);
            }
            let fill = member(value, "marker-fill").as_str();
            let width = number_bits(member(value, "marker-width"));
            Command::start_layer(fill, width)
        } else if code == 'P' {
            if !value.is_array() {
                return Err(RenderError::Payload);
            }
            let lng = number_bits(element(value, 0));
            let lat = number_bits(element(value, 1));
            Ok(Command::point(lng, lat))
        } else {
            Err(RenderError::Protocol)
        }
    }
}

/// Reads one line of a stream.
pub fn parse_line(line: &str) -> (r: Result<Command, RenderError>)
    ensures
        r == line_command(line@),
{
    let n = line.unicode_len();
    if n == 0 {
        return Err(RenderError::Protocol);
    }
    let code = line.get_char(0);
    let payload = line.substring_char(1, n);
    match parse_json(payload) {
        Ok(value) => Command::from_payload(code, &value),
        Err(_) => Err(RenderError::Payload),
    }
}

} // verus!
