use vstd::prelude::*;

verus! {

/// The console's 64 colours as 0xRRGGBB.
pub open spec fn nes_palette(i: int) -> u32 {
    if i == 0 {
        0x808080
    } else if i == 1 {
        0x0000BB
    } else if i == 2 {
        0x3700BF
    } else if i == 3 {
        0x8400A6
    } else if i == 4 {
        0xBB006A
    } else if i == 5 {
        0xB7001E
    } else if i == 6 {
        0xB30000
    } else if i == 7 {
        0x912600
    } else if i == 8 {
        0x7B2B00
    } else if i == 9 {
        0x003E00
    } else if i == 10 {
        0x00480D
    } else if i == 11 {
        0x003C22
    } else if i == 12 {
        0x002F66
    } else if i == 13 {
        0x000000
    } else if i == 14 {
        0x050505
    } else if i == 15 {
        0x050505
    } else if i == 16 {
        0xC8C8C8
    } else if i == 17 {
        0x0059FF
    } else if i == 18 {
        0x443CFF
    } else if i == 19 {
        0xB733CC
    } else if i == 20 {
        0xFF33AA
    } else if i == 21 {
        0xFF375E
    } else if i == 22 {
        0xFF371A
    } else if i == 23 {
        0xD54B00
    } else if i == 24 {
        0xC46200
    } else if i == 25 {
        0x3C7B00
    } else if i == 26 {
        0x1E8415
    } else if i == 27 {
        0x009566
    } else if i == 28 {
        0x0084C4
    } else if i == 29 {
        0x111111
    } else if i == 30 {
        0x090909
    } else if i == 31 {
        0x090909
    } else if i == 32 {
        0xFFFFFF
    } else if i == 33 {
        0x0095FF
    } else if i == 34 {
        0x6F84FF
    } else if i == 35 {
        0xD56FFF
    } else if i == 36 {
        0xFF77CC
    } else if i == 37 {
        0xFF6F99
    } else if i == 38 {
        0xFF7B59
    } else if i == 39 {
        0xFF915F
    } else if i == 40 {
        0xFFA233
    } else if i == 41 {
        0xA6BF00
    } else if i == 42 {
        0x51D96A
    } else if i == 43 {
        0x4DD5AE
    } else if i == 44 {
        0x00D9FF
    } else if i == 45 {
        0x666666
    } else if i == 46 {
        0x0D0D0D
    } else if i == 47 {
        0x0D0D0D
    } else if i == 48 {
        0xFFFFFF
    } else if i == 49 {
        0x84BFFF
    } else if i == 50 {
        0xBBBBFF
    } else if i == 51 {
        0xD0BBFF
    } else if i == 52 {
        0xFFBFEA
    } else if i == 53 {
        0xFFBFCC
    } else if i == 54 {
        0xFFC4B7
    } else if i == 55 {
        0xFFCCAE
    } else if i == 56 {
        0xFFD9A2
    } else if i == 57 {
        0xCCE199
    } else if i == 58 {
        0xAEEEB7
    } else if i == 59 {
        0xAAF7EE
    } else if i == 60 {
        0xB3EEFF
    } else if i == 61 {
        0xDDDDDD
    } else if i == 62 {
        0x111111
    } else if i == 63 {
        0x111111
    } else {
        0
    }
}

/// The colour with palette number `i`.
pub fn palette_rgb(i: u8) -> (r: u32)
    requires
        i < 64,
    ensures
        r == nes_palette(i as int),
{
    match i {
        0 => 0x808080,
        1 => 0x0000BB,
        2 => 0x3700BF,
        3 => 0x8400A6,
        4 => 0xBB006A,
        5 => 0xB7001E,
        6 => 0xB30000,
        7 => 0x912600,
        8 => 0x7B2B00,
        9 => 0x003E00,
        10 => 0x00480D,
        11 => 0x003C22,
        12 => 0x002F66,
        13 => 0x000000,
        14 => 0x050505,
        15 => 0x050505,
        16 => 0xC8C8C8,
        17 => 0x0059FF,
        18 => 0x443CFF,
        19 => 0xB733CC,
        20 => 0xFF33AA,
        21 => 0xFF375E,
        22 => 0xFF371A,
        23 => 0xD54B00,
        24 => 0xC46200,
        25 => 0x3C7B00,
        26 => 0x1E8415,
        27 => 0x009566,
        28 => 0x0084C4,
        29 => 0x111111,
        30 => 0x090909,
        31 => 0x090909,
        32 => 0xFFFFFF,
        33 => 0x0095FF,
        34 => 0x6F84FF,
        35 => 0xD56FFF,
        36 => 0xFF77CC,
        37 => 0xFF6F99,
        38 => 0xFF7B59,
        39 => 0xFF915F,
        40 => 0xFFA233,
        41 => 0xA6BF00,
        42 => 0x51D96A,
        43 => 0x4DD5AE,
        44 => 0x00D9FF,
        45 => 0x666666,
        46 => 0x0D0D0D,
        47 => 0x0D0D0D,
        48 => 0xFFFFFF,
        49 => 0x84BFFF,
        50 => 0xBBBBFF,
        51 => 0xD0BBFF,
        52 => 0xFFBFEA,
        53 => 0xFFBFCC,
        54 => 0xFFC4B7,
        55 => 0xFFCCAE,
        56 => 0xFFD9A2,
        57 => 0xCCE199,
        58 => 0xAEEEB7,
        59 => 0xAAF7EE,
        60 => 0xB3EEFF,
        61 => 0xDDDDDD,
        62 => 0x111111,
        _ => 0x111111,
    }
}

} // verus!
