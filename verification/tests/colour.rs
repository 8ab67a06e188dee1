use kcshot::colour::Colour;

#[test]
fn serialises_as_rgba_bytes() {
    let colour = Colour { red: 0x12, green: 0x34, blue: 0x56, alpha: 0x78 };
    assert_eq!(colour.serialise_to_u32(), 0x1234_5678);
}

#[test]
fn deserialises_rgba_bytes() {
    let colour = Colour::deserialise_from_u32(0xff00_7f3c);
    assert_eq!(colour, Colour { red: 0xff, green: 0, blue: 0x7f, alpha: 0x3c });
}

#[test]
fn serialisation_round_trips() {
    let colour = Colour { red: 1, green: 2, blue: 3, alpha: 4 };
    assert_eq!(Colour::deserialise_from_u32(colour.serialise_to_u32()), colour);
    assert_eq!(Colour::deserialise_from_u32(0xdead_beef).serialise_to_u32(), 0xdead_beef);
}

#[test]
fn black_is_opaque() {
    assert_eq!(Colour::black(), Colour { red: 0, green: 0, blue: 0, alpha: 255 });
}
