use rendertile::color::Color;
use rendertile::command::{parse_line, Command, DEFAULT_MARKER_WIDTH};
use rendertile::error::RenderError;

fn bits(number: f64) -> u64 {
    number.to_bits()
}

#[test]
fn default_marker_width_is_six() {
    assert_eq!(f64::from_bits(DEFAULT_MARKER_WIDTH), 6.0);
}

#[test]
fn tile_line_sets_the_tile() {
    assert_eq!(
        parse_line("T {\"zoom\":9, \"x\":268, \"y\":179}"),
        Ok(Command::SetTile { zoom: 9, x: 268, y: 179 })
    );
    assert_eq!(
        parse_line("T {\"zoom\":0,\"x\":0,\"y\":0}"),
        Ok(Command::SetTile { zoom: 0, x: 0, y: 0 })
    );
}

#[test]
fn absent_tile_fields_are_zero() {
    assert_eq!(parse_line("T {}"), Ok(Command::SetTile { zoom: 0, x: 0, y: 0 }));
    assert_eq!(
        parse_line("T {\"x\": 5}"),
        Ok(Command::SetTile { zoom: 0, x: 5, y: 0 })
    );
    assert_eq!(
        parse_line("T {\"zoom\": 3, \"y\": 7}"),
        Ok(Command::SetTile { zoom: 3, x: 0, y: 7 })
    );
}

#[test]
fn tile_fields_of_another_type_are_zero() {
    assert_eq!(
        parse_line("T {\"zoom\": \"9\", \"x\": 1.5, \"y\": null}"),
        Ok(Command::SetTile { zoom: 0, x: 0, y: 0 })
    );
    assert_eq!(
        parse_line("T {\"zoom\": 18446744073709551615, \"x\": 2, \"y\": 3}"),
        Ok(Command::SetTile { zoom: 0, x: 2, y: 3 })
    );
}

#[test]
fn tile_fields_keep_their_low_bits() {
    assert_eq!(
        parse_line("T {\"zoom\": 300, \"x\": -1, \"y\": 4294967296}"),
        Ok(Command::SetTile { zoom: 44, x: 4294967295, y: 0 })
    );
    assert_eq!(
        parse_line("T {\"zoom\": -1, \"x\": 4294967297, \"y\": -4294967295}"),
        Ok(Command::SetTile { zoom: 255, x: 1, y: 1 })
    );
    assert_eq!(
        Command::set_tile(Some(i64::MIN), Some(i64::MAX), Some(256)),
        Command::SetTile { zoom: 0, x: 4294967295, y: 256 }
    );
}

#[test]
fn layer_line_starts_a_layer() {
    assert_eq!(
        parse_line("L {\"marker-fill\":\"#880033\", \"marker-width\": 6.0}"),
        Ok(Command::StartLayer {
            color: Color { red: 0x88, green: 0, blue: 0x33, alpha: 255 },
            width: bits(6.0),
        })
    );
    assert_eq!(
        parse_line("L {\"marker-fill\":\"#3300FF\", \"marker-width\": 9.0}"),
        Ok(Command::StartLayer {
            color: Color { red: 0x33, green: 0, blue: 255, alpha: 255 },
            width: bits(9.0),
        })
    );
}

#[test]
fn layer_width_may_be_any_json_number() {
    assert_eq!(
        parse_line("L {\"marker-fill\":\"#000000\", \"marker-width\": 4}"),
        Ok(Command::StartLayer {
            color: Color { red: 0, green: 0, blue: 0, alpha: 255 },
            width: bits(4.0),
        })
    );
    assert_eq!(
        parse_line("L {\"marker-fill\":\"#000000\", \"marker-width\": 0}"),
        Ok(Command::StartLayer {
            color: Color { red: 0, green: 0, blue: 0, alpha: 255 },
            width: 0,
        })
    );
    assert_eq!(
        parse_line("L {\"marker-fill\":\"#000000\", \"marker-width\": 2.5e-1}"),
        Ok(Command::StartLayer {
            color: Color { red: 0, green: 0, blue: 0, alpha: 255 },
            width: bits(0.25),
        })
    );
}

#[test]
fn absent_layer_width_is_six() {
    assert_eq!(
        parse_line("L {\"marker-fill\":\"#FF0066\"}"),
        Ok(Command::StartLayer {
            color: Color { red: 255, green: 0, blue: 102, alpha: 255 },
            width: bits(6.0),
        })
    );
    assert_eq!(
        parse_line("L {\"marker-fill\":\"#FF0066\", \"marker-width\": \"wide\"}"),
        Ok(Command::StartLayer {
            color: Color { red: 255, green: 0, blue: 102, alpha: 255 },
            width: bits(6.0),
        })
    );
}

#[test]
fn five_digit_fill_is_a_color_format_error() {
    assert_eq!(
        parse_line("L {\"marker-fill\":\"#12345\",\"marker-width\":6.0}"),
        Err(RenderError::ColorFormat)
    );
}

#[test]
fn bad_or_absent_fill_is_a_color_format_error() {
    assert_eq!(parse_line("L {}"), Err(RenderError::ColorFormat));
    assert_eq!(
        parse_line("L {\"marker-width\": 6.0}"),
        Err(RenderError::ColorFormat)
    );
    assert_eq!(
        parse_line("L {\"marker-fill\": 16711782}"),
        Err(RenderError::ColorFormat)
    );
    assert_eq!(
        parse_line("L {\"marker-fill\": \"FF0066\"}"),
        Err(RenderError::ColorFormat)
    );
    assert_eq!(
        parse_line("L {\"marker-fill\": \"#FF00GG\"}"),
        Err(RenderError::ColorFormat)
    );
    assert_eq!(Command::start_layer(None, Some(1)), Err(RenderError::ColorFormat));
    assert_eq!(Command::start_layer(Some(""), None), Err(RenderError::ColorFormat));
}

#[test]
fn point_line_places_a_point() {
    assert_eq!(
        parse_line("P [15.417046, 47.07289]"),
        Ok(Command::Point { lng: bits(15.417046), lat: bits(47.07289) })
    );
    assert_eq!(
        parse_line("P [0.0,0.0]"),
        Ok(Command::Point { lng: 0, lat: 0 })
    );
    assert_eq!(
        parse_line("P [-122, 37]"),
        Ok(Command::Point { lng: bits(-122.0), lat: bits(37.0) })
    );
}

#[test]
fn absent_coordinates_are_zero() {
    assert_eq!(parse_line("P []"), Ok(Command::Point { lng: 0, lat: 0 }));
    assert_eq!(
        parse_line("P [8.5]"),
        Ok(Command::Point { lng: bits(8.5), lat: 0 })
    );
    assert_eq!(
        parse_line("P [\"east\", 47.5]"),
        Ok(Command::Point { lng: 0, lat: bits(47.5) })
    );
    assert_eq!(
        parse_line("P [1.0, null, 3.0]"),
        Ok(Command::Point { lng: bits(1.0), lat: 0 })
    );
    assert_eq!(Command::point(None, None), Command::Point { lng: 0, lat: 0 });
    assert_eq!(
        Command::point(Some(bits(1.5)), None),
        Command::Point { lng: bits(1.5), lat: 0 }
    );
}

#[test]
fn unknown_code_is_a_protocol_error() {
    assert_eq!(parse_line("X {}"), Err(RenderError::Protocol));
    assert_eq!(parse_line("t {\"zoom\":1}"), Err(RenderError::Protocol));
    assert_eq!(parse_line("# [1, 2]"), Err(RenderError::Protocol));
    assert_eq!(parse_line("\u{e9} [1, 2]"), Err(RenderError::Protocol));
    assert_eq!(parse_line("  {}"), Err(RenderError::Protocol));
    assert_eq!(parse_line("TT {}"), Err(RenderError::Payload));
}

#[test]
fn empty_line_is_a_protocol_error() {
    assert_eq!(parse_line(""), Err(RenderError::Protocol));
}

#[test]
fn payload_that_is_not_json_is_a_payload_error() {
    assert_eq!(parse_line("T"), Err(RenderError::Payload));
    assert_eq!(parse_line("T {\"zoom\":"), Err(RenderError::Payload));
    assert_eq!(parse_line("L {marker-fill: #FF0066}"), Err(RenderError::Payload));
    assert_eq!(parse_line("P [1.0, 2.0"), Err(RenderError::Payload));
    assert_eq!(parse_line("P [1.0, 2.0] trailing"), Err(RenderError::Payload));
    assert_eq!(parse_line("P [1e999, 0]"), Err(RenderError::Payload));
}

#[test]
fn bad_json_counts_before_an_unknown_code() {
    assert_eq!(parse_line("X"), Err(RenderError::Payload));
    assert_eq!(parse_line("X {"), Err(RenderError::Payload));
}

#[test]
fn payload_of_the_wrong_shape_is_a_payload_error() {
    assert_eq!(parse_line("T [9, 268, 179]"), Err(RenderError::Payload));
    assert_eq!(parse_line("T 9"), Err(RenderError::Payload));
    assert_eq!(parse_line("L \"#FF0066\""), Err(RenderError::Payload));
    assert_eq!(parse_line("L null"), Err(RenderError::Payload));
    assert_eq!(parse_line("P {\"lng\": 1.0, \"lat\": 2.0}"), Err(RenderError::Payload));
    assert_eq!(parse_line("P 1.0"), Err(RenderError::Payload));
}

#[test]
fn space_after_the_code_is_optional() {
    assert_eq!(
        parse_line("T{\"zoom\":2}"),
        Ok(Command::SetTile { zoom: 2, x: 0, y: 0 })
    );
    assert_eq!(
        parse_line("P \t [1, 2] "),
        Ok(Command::Point { lng: bits(1.0), lat: bits(2.0) })
    );
}

#[test]
fn parsed_payload_is_read_by_its_code() {
    let object: serde_json::Value =
        serde_json::from_str("{\"zoom\": 4, \"x\": 3, \"y\": 2, \"marker-fill\": \"#010203\"}")
            .unwrap();
    assert_eq!(
        Command::from_payload('T', &object),
        Ok(Command::SetTile { zoom: 4, x: 3, y: 2 })
    );
    assert_eq!(
        Command::from_payload('L', &object),
        Ok(Command::StartLayer {
            color: Color { red: 1, green: 2, blue: 3, alpha: 255 },
            width: DEFAULT_MARKER_WIDTH,
        })
    );
    assert_eq!(Command::from_payload('P', &object), Err(RenderError::Payload));
    assert_eq!(Command::from_payload('Q', &object), Err(RenderError::Protocol));
    let array: serde_json::Value = serde_json::from_str("[10.5, -20.25]").unwrap();
    assert_eq!(
        Command::from_payload('P', &array),
        Ok(Command::Point { lng: bits(10.5), lat: bits(-20.25) })
    );
    assert_eq!(Command::from_payload('T', &array), Err(RenderError::Payload));
    assert_eq!(Command::from_payload('L', &array), Err(RenderError::Payload));
}
