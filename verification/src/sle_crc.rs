//! Checksums of packets: a 12-bit one on the advertising channel and a 16-bit one on
//! the transport channels. Bits are taken in lowest first.

use vstd::prelude::*;

use crate::bytes;

verus! {

/// Sync word of the advertising channel.
pub const SLE_SYNC_WORD_ADV: u32 = 0x5A2B_DA62;

/// Feedback of the 12-bit register.
pub const CRC12_POLY: u16 = 0x0D25;

/// Feedback of the 16-bit register: x^16 + x^15 + x^2 + 1, lowest bit first.
pub const CRC16_POLY: u16 = 0xA001;

/// Start value of the 16-bit checksum unless another is agreed on.
pub const CRC16_DEFAULT_SEED: u16 = 0x5555;

/// The register of the 12-bit checksum after one bit was shifted out.
pub open spec fn shifted12(c: u16) -> u16 {
    if c & 1 == 1 {
        (c >> 1) ^ CRC12_POLY
    } else {
        c >> 1
    }
}

/// The register of the 12-bit checksum after eight bits were shifted out.
pub open spec fn byte12(c: u16) -> u16 {
    shifted12(shifted12(shifted12(shifted12(shifted12(shifted12(shifted12(shifted12(c))))))))
}

/// The register after the eight bits of a byte that holds nothing else.
fn crc12_entry(i: u8) -> (r: u16)
    ensures
        r == byte12(i as u16),
{
    proof {
        assert(byte12(0) == 0x000
            && byte12(1) == 0xA54
            && byte12(2) == 0xEE3
            && byte12(3) == 0x4B7
            && byte12(4) == 0x78D
            && byte12(5) == 0xDD9
            && byte12(6) == 0x96E
            && byte12(7) == 0x33A
            && byte12(8) == 0xF1A
            && byte12(9) == 0x54E
            && byte12(10) == 0x1F9
            && byte12(11) == 0xBAD
            && byte12(12) == 0x897
            && byte12(13) == 0x2C3
            && byte12(14) == 0x674
            && byte12(15) == 0xC20
            && byte12(16) == 0x47F
            && byte12(17) == 0xE2B
            && byte12(18) == 0xA9C
            && byte12(19) == 0x0C8
            && byte12(20) == 0x3F2
            && byte12(21) == 0x9A6
            && byte12(22) == 0xD11
            && byte12(23) == 0x745
            && byte12(24) == 0xB65
            && byte12(25) == 0x131
            && byte12(26) == 0x586
            && byte12(27) == 0xFD2
            && byte12(28) == 0xCE8
            && byte12(29) == 0x6BC
            && byte12(30) == 0x20B
            && byte12(31) == 0x85F
            && byte12(32) == 0x8FE
            && byte12(33) == 0x2AA
            && byte12(34) == 0x61D
            && byte12(35) == 0xC49
            && byte12(36) == 0xF73
            && byte12(37) == 0x527
            && byte12(38) == 0x190
            && byte12(39) == 0xBC4
            && byte12(40) == 0x7E4
            && byte12(41) == 0xDB0
            && byte12(42) == 0x907
            && byte12(43) == 0x353
            && byte12(44) == 0x069
            && byte12(45) == 0xA3D
            && byte12(46) == 0xE8A
            && byte12(47) == 0x4DE
            && byte12(48) == 0xC81
            && byte12(49) == 0x6D5
            && byte12(50) == 0x262
            && byte12(51) == 0x836
            && byte12(52) == 0xB0C
            && byte12(53) == 0x158
            && byte12(54) == 0x5EF
            && byte12(55) == 0xFBB
            && byte12(56) == 0x39B
            && byte12(57) == 0x9CF
            && byte12(58) == 0xD78
            && byte12(59) == 0x72C
            && byte12(60) == 0x416
            && byte12(61) == 0xE42
            && byte12(62) == 0xAF5
            && byte12(63) == 0x0A1) by (bit_vector);
        assert(byte12(64) == 0xBB7
            && byte12(65) == 0x1E3
            && byte12(66) == 0x554
            && byte12(67) == 0xF00
            && byte12(68) == 0xC3A
            && byte12(69) == 0x66E
            && byte12(70) == 0x2D9
            && byte12(71) == 0x88D
            && byte12(72) == 0x4AD
            && byte12(73) == 0xEF9
            && byte12(74) == 0xA4E
            && byte12(75) == 0x01A
            && byte12(76) == 0x320
            && byte12(77) == 0x974
            && byte12(78) == 0xDC3
            && byte12(79) == 0x797
            && byte12(80) == 0xFC8
            && byte12(81) == 0x59C
            && byte12(82) == 0x12B
            && byte12(83) == 0xB7F
            && byte12(84) == 0x845
            && byte12(85) == 0x211
            && byte12(86) == 0x6A6
            && byte12(87) == 0xCF2
            && byte12(88) == 0x0D2
            && byte12(89) == 0xA86
            && byte12(90) == 0xE31
            && byte12(91) == 0x465
            && byte12(92) == 0x75F
            && byte12(93) == 0xD0B
            && byte12(94) == 0x9BC
            && byte12(95) == 0x3E8
            && byte12(96) == 0x349
            && byte12(97) == 0x91D
            && byte12(98) == 0xDAA
            && byte12(99) == 0x7FE
            && byte12(100) == 0x4C4
            && byte12(101) == 0xE90
            && byte12(102) == 0xA27
            && byte12(103) == 0x073
            && byte12(104) == 0xC53
            && byte12(105) == 0x607
            && byte12(106) == 0x2B0
            && byte12(107) == 0x8E4
            && byte12(108) == 0xBDE
            && byte12(109) == 0x18A
            && byte12(110) == 0x53D
            && byte12(111) == 0xF69
            && byte12(112) == 0x736
            && byte12(113) == 0xD62
            && byte12(114) == 0x9D5
            && byte12(115) == 0x381
            && byte12(116) == 0x0BB
            && byte12(117) == 0xAEF
            && byte12(118) == 0xE58
            && byte12(119) == 0x40C
            && byte12(120) == 0x82C
            && byte12(121) == 0x278
            && byte12(122) == 0x6CF
            && byte12(123) == 0xC9B
            && byte12(124) == 0xFA1
            && byte12(125) == 0x5F5
            && byte12(126) == 0x142
            && byte12(127) == 0xB16) by (bit_vector);
        assert(byte12(128) == 0xD25
            && byte12(129) == 0x771
            && byte12(130) == 0x3C6
            && byte12(131) == 0x992
            && byte12(132) == 0xAA8
            && byte12(133) == 0x0FC
            && byte12(134) == 0x44B
            && byte12(135) == 0xE1F
            && byte12(136) == 0x23F
            && byte12(137) == 0x86B
            && byte12(138) == 0xCDC
            && byte12(139) == 0x688
            && byte12(140) == 0x5B2
            && byte12(141) == 0xFE6
            && byte12(142) == 0xB51
            && byte12(143) == 0x105
            && byte12(144) == 0x95A
            && byte12(145) == 0x30E
            && byte12(146) == 0x7B9
            && byte12(147) == 0xDED
            && byte12(148) == 0xED7
            && byte12(149) == 0x483
            && byte12(150) == 0x034
            && byte12(151) == 0xA60
            && byte12(152) == 0x640
            && byte12(153) == 0xC14
            && byte12(154) == 0x8A3
            && byte12(155) == 0x2F7
            && byte12(156) == 0x1CD
            && byte12(157) == 0xB99
            && byte12(158) == 0xF2E
            && byte12(159) == 0x57A
            && byte12(160) == 0x5DB
            && byte12(161) == 0xF8F
            && byte12(162) == 0xB38
            && byte12(163) == 0x16C
            && byte12(164) == 0x256
            && byte12(165) == 0x802
            && byte12(166) == 0xCB5
            && byte12(167) == 0x6E1
            && byte12(168) == 0xAC1
            && byte12(169) == 0x095
            && byte12(170) == 0x422
            && byte12(171) == 0xE76
            && byte12(172) == 0xD4C
            && byte12(173) == 0x718
            && byte12(174) == 0x3AF
            && byte12(175) == 0x9FB
            && byte12(176) == 0x1A4
            && byte12(177) == 0xBF0
            && byte12(178) == 0xF47
            && byte12(179) == 0x513
            && byte12(180) == 0x629
            && byte12(181) == 0xC7D
            && byte12(182) == 0x8CA
            && byte12(183) == 0x29E
            && byte12(184) == 0xEBE
            && byte12(185) == 0x4EA
            && byte12(186) == 0x05D
            && byte12(187) == 0xA09
            && byte12(188) == 0x933
            && byte12(189) == 0x367
            && byte12(190) == 0x7D0
            && byte12(191) == 0xD84) by (bit_vector);
        assert(byte12(192) == 0x692
            && byte12(193) == 0xCC6
            && byte12(194) == 0x871
            && byte12(195) == 0x225
            && byte12(196) == 0x11F
            && byte12(197) == 0xB4B
            && byte12(198) == 0xFFC
            && byte12(199) == 0x5A8
            && byte12(200) == 0x988
            && byte12(201) == 0x3DC
            && byte12(202) == 0x76B
            && byte12(203) == 0xD3F
            && byte12(204) == 0xE05
            && byte12(205) == 0x451
            && byte12(206) == 0x0E6
            && byte12(207) == 0xAB2
            && byte12(208) == 0x2ED
            && byte12(209) == 0x8B9
            && byte12(210) == 0xC0E
            && byte12(211) == 0x65A
            && byte12(212) == 0x560
            && byte12(213) == 0xF34
            && byte12(214) == 0xB83
            && byte12(215) == 0x1D7
            && byte12(216) == 0xDF7
            && byte12(217) == 0x7A3
            && byte12(218) == 0x314
            && byte12(219) == 0x940
            && byte12(220) == 0xA7A
            && byte12(221) == 0x02E
            && byte12(222) == 0x499
            && byte12(223) == 0xECD
            && byte12(224) == 0xE6C
            && byte12(225) == 0x438
            && byte12(226) == 0x08F
            && byte12(227) == 0xADB
            && byte12(228) == 0x9E1
            && byte12(229) == 0x3B5
            && byte12(230) == 0x702
            && byte12(231) == 0xD56
            && byte12(232) == 0x176
            && byte12(233) == 0xB22
            && byte12(234) == 0xF95
            && byte12(235) == 0x5C1
            && byte12(236) == 0x6FB
            && byte12(237) == 0xCAF
            && byte12(238) == 0x818
            && byte12(239) == 0x24C
            && byte12(240) == 0xA13
            && byte12(241) == 0x047
            && byte12(242) == 0x4F0
            && byte12(243) == 0xEA4
            && byte12(244) == 0xD9E
            && byte12(245) == 0x7CA
            && byte12(246) == 0x37D
            && byte12(247) == 0x929
            && byte12(248) == 0x509
            && byte12(249) == 0xF5D
            && byte12(250) == 0xBEA
            && byte12(251) == 0x1BE
            && byte12(252) == 0x284
            && byte12(253) == 0x8D0
            && byte12(254) == 0xC67
            && byte12(255) == 0x633) by (bit_vector);
    }
    match i {
        0 => 0x000,
        1 => 0xA54,
        2 => 0xEE3,
        3 => 0x4B7,
        4 => 0x78D,
        5 => 0xDD9,
        6 => 0x96E,
        7 => 0x33A,
        8 => 0xF1A,
        9 => 0x54E,
        10 => 0x1F9,
        11 => 0xBAD,
        12 => 0x897,
        13 => 0x2C3,
        14 => 0x674,
        15 => 0xC20,
        16 => 0x47F,
        17 => 0xE2B,
        18 => 0xA9C,
        19 => 0x0C8,
        20 => 0x3F2,
        21 => 0x9A6,
        22 => 0xD11,
        23 => 0x745,
        24 => 0xB65,
        25 => 0x131,
        26 => 0x586,
        27 => 0xFD2,
        28 => 0xCE8,
        29 => 0x6BC,
        30 => 0x20B,
        31 => 0x85F,
        32 => 0x8FE,
        33 => 0x2AA,
        34 => 0x61D,
        35 => 0xC49,
        36 => 0xF73,
        37 => 0x527,
        38 => 0x190,
        39 => 0xBC4,
        40 => 0x7E4,
        41 => 0xDB0,
        42 => 0x907,
        43 => 0x353,
        44 => 0x069,
        45 => 0xA3D,
        46 => 0xE8A,
        47 => 0x4DE,
        48 => 0xC81,
        49 => 0x6D5,
        50 => 0x262,
        51 => 0x836,
        52 => 0xB0C,
        53 => 0x158,
        54 => 0x5EF,
        55 => 0xFBB,
        56 => 0x39B,
        57 => 0x9CF,
        58 => 0xD78,
        59 => 0x72C,
        60 => 0x416,
        61 => 0xE42,
        62 => 0xAF5,
        63 => 0x0A1,
        64 => 0xBB7,
        65 => 0x1E3,
        66 => 0x554,
        67 => 0xF00,
        68 => 0xC3A,
        69 => 0x66E,
        70 => 0x2D9,
        71 => 0x88D,
        72 => 0x4AD,
        73 => 0xEF9,
        74 => 0xA4E,
        75 => 0x01A,
        76 => 0x320,
        77 => 0x974,
        78 => 0xDC3,
        79 => 0x797,
        80 => 0xFC8,
        81 => 0x59C,
        82 => 0x12B,
        83 => 0xB7F,
        84 => 0x845,
        85 => 0x211,
        86 => 0x6A6,
        87 => 0xCF2,
        88 => 0x0D2,
        89 => 0xA86,
        90 => 0xE31,
        91 => 0x465,
        92 => 0x75F,
        93 => 0xD0B,
        94 => 0x9BC,
        95 => 0x3E8,
        96 => 0x349,
        97 => 0x91D,
        98 => 0xDAA,
        99 => 0x7FE,
        100 => 0x4C4,
        101 => 0xE90,
        102 => 0xA27,
        103 => 0x073,
        104 => 0xC53,
        105 => 0x607,
        106 => 0x2B0,
        107 => 0x8E4,
        108 => 0xBDE,
        109 => 0x18A,
        110 => 0x53D,
        111 => 0xF69,
        112 => 0x736,
        113 => 0xD62,
        114 => 0x9D5,
        115 => 0x381,
        116 => 0x0BB,
        117 => 0xAEF,
        118 => 0xE58,
        119 => 0x40C,
        120 => 0x82C,
        121 => 0x278,
        122 => 0x6CF,
        123 => 0xC9B,
        124 => 0xFA1,
        125 => 0x5F5,
        126 => 0x142,
        127 => 0xB16,
        128 => 0xD25,
        129 => 0x771,
        130 => 0x3C6,
        131 => 0x992,
        132 => 0xAA8,
        133 => 0x0FC,
        134 => 0x44B,
        135 => 0xE1F,
        136 => 0x23F,
        137 => 0x86B,
        138 => 0xCDC,
        139 => 0x688,
        140 => 0x5B2,
        141 => 0xFE6,
        142 => 0xB51,
        143 => 0x105,
        144 => 0x95A,
        145 => 0x30E,
        146 => 0x7B9,
        147 => 0xDED,
        148 => 0xED7,
        149 => 0x483,
        150 => 0x034,
        151 => 0xA60,
        152 => 0x640,
        153 => 0xC14,
        154 => 0x8A3,
        155 => 0x2F7,
        156 => 0x1CD,
        157 => 0xB99,
        158 => 0xF2E,
        159 => 0x57A,
        160 => 0x5DB,
        161 => 0xF8F,
        162 => 0xB38,
        163 => 0x16C,
        164 => 0x256,
        165 => 0x802,
        166 => 0xCB5,
        167 => 0x6E1,
        168 => 0xAC1,
        169 => 0x095,
        170 => 0x422,
        171 => 0xE76,
        172 => 0xD4C,
        173 => 0x718,
        174 => 0x3AF,
        175 => 0x9FB,
        176 => 0x1A4,
        177 => 0xBF0,
        178 => 0xF47,
        179 => 0x513,
        180 => 0x629,
        181 => 0xC7D,
        182 => 0x8CA,
        183 => 0x29E,
        184 => 0xEBE,
        185 => 0x4EA,
        186 => 0x05D,
        187 => 0xA09,
        188 => 0x933,
        189 => 0x367,
        190 => 0x7D0,
        191 => 0xD84,
        192 => 0x692,
        193 => 0xCC6,
        194 => 0x871,
        195 => 0x225,
        196 => 0x11F,
        197 => 0xB4B,
        198 => 0xFFC,
        199 => 0x5A8,
        200 => 0x988,
        201 => 0x3DC,
        202 => 0x76B,
        203 => 0xD3F,
        204 => 0xE05,
        205 => 0x451,
        206 => 0x0E6,
        207 => 0xAB2,
        208 => 0x2ED,
        209 => 0x8B9,
        210 => 0xC0E,
        211 => 0x65A,
        212 => 0x560,
        213 => 0xF34,
        214 => 0xB83,
        215 => 0x1D7,
        216 => 0xDF7,
        217 => 0x7A3,
        218 => 0x314,
        219 => 0x940,
        220 => 0xA7A,
        221 => 0x02E,
        222 => 0x499,
        223 => 0xECD,
        224 => 0xE6C,
        225 => 0x438,
        226 => 0x08F,
        227 => 0xADB,
        228 => 0x9E1,
        229 => 0x3B5,
        230 => 0x702,
        231 => 0xD56,
        232 => 0x176,
        233 => 0xB22,
        234 => 0xF95,
        235 => 0x5C1,
        236 => 0x6FB,
        237 => 0xCAF,
        238 => 0x818,
        239 => 0x24C,
        240 => 0xA13,
        241 => 0x047,
        242 => 0x4F0,
        243 => 0xEA4,
        244 => 0xD9E,
        245 => 0x7CA,
        246 => 0x37D,
        247 => 0x929,
        248 => 0x509,
        249 => 0xF5D,
        250 => 0xBEA,
        251 => 0x1BE,
        252 => 0x284,
        253 => 0x8D0,
        254 => 0xC67,
        _ => 0x633,
    }
}

/// The register of the 16-bit checksum after one bit was shifted out.
pub open spec fn shifted16(c: u16) -> u16 {
    if c & 1 == 1 {
        (c >> 1) ^ CRC16_POLY
    } else {
        c >> 1
    }
}

/// The register of the 16-bit checksum after eight bits were shifted out.
pub open spec fn byte16(c: u16) -> u16 {
    shifted16(shifted16(shifted16(shifted16(shifted16(shifted16(shifted16(shifted16(c))))))))
}

/// The register after the eight bits of a byte that holds nothing else.
fn crc16_entry(i: u8) -> (r: u16)
    ensures
        r == byte16(i as u16),
{
    proof {
        assert(byte16(0) == 0x0000
            && byte16(1) == 0xC0C1
            && byte16(2) == 0xC181
            && byte16(3) == 0x0140
            && byte16(4) == 0xC301
            && byte16(5) == 0x03C0
            && byte16(6) == 0x0280
            && byte16(7) == 0xC241
            && byte16(8) == 0xC601
            && byte16(9) == 0x06C0
            && byte16(10) == 0x0780
            && byte16(11) == 0xC741
            && byte16(12) == 0x0500
            && byte16(13) == 0xC5C1
            && byte16(14) == 0xC481
            && byte16(15) == 0x0440
            && byte16(16) == 0xCC01
            && byte16(17) == 0x0CC0
            && byte16(18) == 0x0D80
            && byte16(19) == 0xCD41
            && byte16(20) == 0x0F00
            && byte16(21) == 0xCFC1
            && byte16(22) == 0xCE81
            && byte16(23) == 0x0E40
            && byte16(24) == 0x0A00
            && byte16(25) == 0xCAC1
            && byte16(26) == 0xCB81
            && byte16(27) == 0x0B40
            && byte16(28) == 0xC901
            && byte16(29) == 0x09C0
            && byte16(30) == 0x0880
            && byte16(31) == 0xC841
            && byte16(32) == 0xD801
            && byte16(33) == 0x18C0
            && byte16(34) == 0x1980
            && byte16(35) == 0xD941
            && byte16(36) == 0x1B00
            && byte16(37) == 0xDBC1
            && byte16(38) == 0xDA81
            && byte16(39) == 0x1A40
            && byte16(40) == 0x1E00
            && byte16(41) == 0xDEC1
            && byte16(42) == 0xDF81
            && byte16(43) == 0x1F40
            && byte16(44) == 0xDD01
            && byte16(45) == 0x1DC0
            && byte16(46) == 0x1C80
            && byte16(47) == 0xDC41
            && byte16(48) == 0x1400
            && byte16(49) == 0xD4C1
            && byte16(50) == 0xD581
            && byte16(51) == 0x1540
            && byte16(52) == 0xD701
            && byte16(53) == 0x17C0
            && byte16(54) == 0x1680
            && byte16(55) == 0xD641
            && byte16(56) == 0xD201
            && byte16(57) == 0x12C0
            && byte16(58) == 0x1380
            && byte16(59) == 0xD341
            && byte16(60) == 0x1100
            && byte16(61) == 0xD1C1
            && byte16(62) == 0xD081
            && byte16(63) == 0x1040) by (bit_vector);
        assert(byte16(64) == 0xF001
            && byte16(65) == 0x30C0
            && byte16(66) == 0x3180
            && byte16(67) == 0xF141
            && byte16(68) == 0x3300
            && byte16(69) == 0xF3C1
            && byte16(70) == 0xF281
            && byte16(71) == 0x3240
            && byte16(72) == 0x3600
            && byte16(73) == 0xF6C1
            && byte16(74) == 0xF781
            && byte16(75) == 0x3740
            && byte16(76) == 0xF501
            && byte16(77) == 0x35C0
            && byte16(78) == 0x3480
            && byte16(79) == 0xF441
            && byte16(80) == 0x3C00
            && byte16(81) == 0xFCC1
            && byte16(82) == 0xFD81
            && byte16(83) == 0x3D40
            && byte16(84) == 0xFF01
            && byte16(85) == 0x3FC0
            && byte16(86) == 0x3E80
            && byte16(87) == 0xFE41
            && byte16(88) == 0xFA01
            && byte16(89) == 0x3AC0
            && byte16(90) == 0x3B80
            && byte16(91) == 0xFB41
            && byte16(92) == 0x3900
            && byte16(93) == 0xF9C1
            && byte16(94) == 0xF881
            && byte16(95) == 0x3840
            && byte16(96) == 0x2800
            && byte16(97) == 0xE8C1
            && byte16(98) == 0xE981
            && byte16(99) == 0x2940
            && byte16(100) == 0xEB01
            && byte16(101) == 0x2BC0
            && byte16(102) == 0x2A80
            && byte16(103) == 0xEA41
            && byte16(104) == 0xEE01
            && byte16(105) == 0x2EC0
            && byte16(106) == 0x2F80
            && byte16(107) == 0xEF41
            && byte16(108) == 0x2D00
            && byte16(109) == 0xEDC1
            && byte16(110) == 0xEC81
            && byte16(111) == 0x2C40
            && byte16(112) == 0xE401
            && byte16(113) == 0x24C0
            && byte16(114) == 0x2580
            && byte16(115) == 0xE541
            && byte16(116) == 0x2700
            && byte16(117) == 0xE7C1
            && byte16(118) == 0xE681
            && byte16(119) == 0x2640
            && byte16(120) == 0x2200
            && byte16(121) == 0xE2C1
            && byte16(122) == 0xE381
            && byte16(123) == 0x2340
            && byte16(124) == 0xE101
            && byte16(125) == 0x21C0
            && byte16(126) == 0x2080
            && byte16(127) == 0xE041) by (bit_vector);
        assert(byte16(128) == 0xA001
            && byte16(129) == 0x60C0
            && byte16(130) == 0x6180
            && byte16(131) == 0xA141
            && byte16(132) == 0x6300
            && byte16(133) == 0xA3C1
            && byte16(134) == 0xA281
            && byte16(135) == 0x6240
            && byte16(136) == 0x6600
            && byte16(137) == 0xA6C1
            && byte16(138) == 0xA781
            && byte16(139) == 0x6740
            && byte16(140) == 0xA501
            && byte16(141) == 0x65C0
            && byte16(142) == 0x6480
            && byte16(143) == 0xA441
            && byte16(144) == 0x6C00
            && byte16(145) == 0xACC1
            && byte16(146) == 0xAD81
            && byte16(147) == 0x6D40
            && byte16(148) == 0xAF01
            && byte16(149) == 0x6FC0
            && byte16(150) == 0x6E80
            && byte16(151) == 0xAE41
            && byte16(152) == 0xAA01
            && byte16(153) == 0x6AC0
            && byte16(154) == 0x6B80
            && byte16(155) == 0xAB41
            && byte16(156) == 0x6900
            && byte16(157) == 0xA9C1
            && byte16(158) == 0xA881
            && byte16(159) == 0x6840
            && byte16(160) == 0x7800
            && byte16(161) == 0xB8C1
            && byte16(162) == 0xB981
            && byte16(163) == 0x7940
            && byte16(164) == 0xBB01
            && byte16(165) == 0x7BC0
            && byte16(166) == 0x7A80
            && byte16(167) == 0xBA41
            && byte16(168) == 0xBE01
            && byte16(169) == 0x7EC0
            && byte16(170) == 0x7F80
            && byte16(171) == 0xBF41
            && byte16(172) == 0x7D00
            && byte16(173) == 0xBDC1
            && byte16(174) == 0xBC81
            && byte16(175) == 0x7C40
            && byte16(176) == 0xB401
            && byte16(177) == 0x74C0
            && byte16(178) == 0x7580
            && byte16(179) == 0xB541
            && byte16(180) == 0x7700
            && byte16(181) == 0xB7C1
            && byte16(182) == 0xB681
            && byte16(183) == 0x7640
            && byte16(184) == 0x7200
            && byte16(185) == 0xB2C1
            && byte16(186) == 0xB381
            && byte16(187) == 0x7340
            && byte16(188) == 0xB101
            && byte16(189) == 0x71C0
            && byte16(190) == 0x7080
            && byte16(191) == 0xB041) by (bit_vector);
        assert(byte16(192) == 0x5000
            && byte16(193) == 0x90C1
            && byte16(194) == 0x9181
            && byte16(195) == 0x5140
            && byte16(196) == 0x9301
            && byte16(197) == 0x53C0
            && byte16(198) == 0x5280
            && byte16(199) == 0x9241
            && byte16(200) == 0x9601
            && byte16(201) == 0x56C0
            && byte16(202) == 0x5780
            && byte16(203) == 0x9741
            && byte16(204) == 0x5500
            && byte16(205) == 0x95C1
            && byte16(206) == 0x9481
            && byte16(207) == 0x5440
            && byte16(208) == 0x9C01
            && byte16(209) == 0x5CC0
            && byte16(210) == 0x5D80
            && byte16(211) == 0x9D41
            && byte16(212) == 0x5F00
            && byte16(213) == 0x9FC1
            && byte16(214) == 0x9E81
            && byte16(215) == 0x5E40
            && byte16(216) == 0x5A00
            && byte16(217) == 0x9AC1
            && byte16(218) == 0x9B81
            && byte16(219) == 0x5B40
            && byte16(220) == 0x9901
            && byte16(221) == 0x59C0
            && byte16(222) == 0x5880
            && byte16(223) == 0x9841
            && byte16(224) == 0x8801
            && byte16(225) == 0x48C0
            && byte16(226) == 0x4980
            && byte16(227) == 0x8941
            && byte16(228) == 0x4B00
            && byte16(229) == 0x8BC1
            && byte16(230) == 0x8A81
            && byte16(231) == 0x4A40
            && byte16(232) == 0x4E00
            && byte16(233) == 0x8EC1
            && byte16(234) == 0x8F81
            && byte16(235) == 0x4F40
            && byte16(236) == 0x8D01
            && byte16(237) == 0x4DC0
            && byte16(238) == 0x4C80
            && byte16(239) == 0x8C41
            && byte16(240) == 0x4400
            && byte16(241) == 0x84C1
            && byte16(242) == 0x8581
            && byte16(243) == 0x4540
            && byte16(244) == 0x8701
            && byte16(245) == 0x47C0
            && byte16(246) == 0x4680
            && byte16(247) == 0x8641
            && byte16(248) == 0x8201
            && byte16(249) == 0x42C0
            && byte16(250) == 0x4380
            && byte16(251) == 0x8341
            && byte16(252) == 0x4100
            && byte16(253) == 0x81C1
            && byte16(254) == 0x8081
            && byte16(255) == 0x4040) by (bit_vector);
    }
    match i {
        0 => 0x0000,
        1 => 0xC0C1,
        2 => 0xC181,
        3 => 0x0140,
        4 => 0xC301,
        5 => 0x03C0,
        6 => 0x0280,
        7 => 0xC241,
        8 => 0xC601,
        9 => 0x06C0,
        10 => 0x0780,
        11 => 0xC741,
        12 => 0x0500,
        13 => 0xC5C1,
        14 => 0xC481,
        15 => 0x0440,
        16 => 0xCC01,
        17 => 0x0CC0,
        18 => 0x0D80,
        19 => 0xCD41,
        20 => 0x0F00,
        21 => 0xCFC1,
        22 => 0xCE81,
        23 => 0x0E40,
        24 => 0x0A00,
        25 => 0xCAC1,
        26 => 0xCB81,
        27 => 0x0B40,
        28 => 0xC901,
        29 => 0x09C0,
        30 => 0x0880,
        31 => 0xC841,
        32 => 0xD801,
        33 => 0x18C0,
        34 => 0x1980,
        35 => 0xD941,
        36 => 0x1B00,
        37 => 0xDBC1,
        38 => 0xDA81,
        39 => 0x1A40,
        40 => 0x1E00,
        41 => 0xDEC1,
        42 => 0xDF81,
        43 => 0x1F40,
        44 => 0xDD01,
        45 => 0x1DC0,
        46 => 0x1C80,
        47 => 0xDC41,
        48 => 0x1400,
        49 => 0xD4C1,
        50 => 0xD581,
        51 => 0x1540,
        52 => 0xD701,
        53 => 0x17C0,
        54 => 0x1680,
        55 => 0xD641,
        56 => 0xD201,
        57 => 0x12C0,
        58 => 0x1380,
        59 => 0xD341,
        60 => 0x1100,
        61 => 0xD1C1,
        62 => 0xD081,
        63 => 0x1040,
        64 => 0xF001,
        65 => 0x30C0,
        66 => 0x3180,
        67 => 0xF141,
        68 => 0x3300,
        69 => 0xF3C1,
        70 => 0xF281,
        71 => 0x3240,
        72 => 0x3600,
        73 => 0xF6C1,
        74 => 0xF781,
        75 => 0x3740,
        76 => 0xF501,
        77 => 0x35C0,
        78 => 0x3480,
        79 => 0xF441,
        80 => 0x3C00,
        81 => 0xFCC1,
        82 => 0xFD81,
        83 => 0x3D40,
        84 => 0xFF01,
        85 => 0x3FC0,
        86 => 0x3E80,
        87 => 0xFE41,
        88 => 0xFA01,
        89 => 0x3AC0,
        90 => 0x3B80,
        91 => 0xFB41,
        92 => 0x3900,
        93 => 0xF9C1,
        94 => 0xF881,
        95 => 0x3840,
        96 => 0x2800,
        97 => 0xE8C1,
        98 => 0xE981,
        99 => 0x2940,
        100 => 0xEB01,
        101 => 0x2BC0,
        102 => 0x2A80,
        103 => 0xEA41,
        104 => 0xEE01,
        105 => 0x2EC0,
        106 => 0x2F80,
        107 => 0xEF41,
        108 => 0x2D00,
        109 => 0xEDC1,
        110 => 0xEC81,
        111 => 0x2C40,
        112 => 0xE401,
        113 => 0x24C0,
        114 => 0x2580,
        115 => 0xE541,
        116 => 0x2700,
        117 => 0xE7C1,
        118 => 0xE681,
        119 => 0x2640,
        120 => 0x2200,
        121 => 0xE2C1,
        122 => 0xE381,
        123 => 0x2340,
        124 => 0xE101,
        125 => 0x21C0,
        126 => 0x2080,
        127 => 0xE041,
        128 => 0xA001,
        129 => 0x60C0,
        130 => 0x6180,
        131 => 0xA141,
        132 => 0x6300,
        133 => 0xA3C1,
        134 => 0xA281,
        135 => 0x6240,
        136 => 0x6600,
        137 => 0xA6C1,
        138 => 0xA781,
        139 => 0x6740,
        140 => 0xA501,
        141 => 0x65C0,
        142 => 0x6480,
        143 => 0xA441,
        144 => 0x6C00,
        145 => 0xACC1,
        146 => 0xAD81,
        147 => 0x6D40,
        148 => 0xAF01,
        149 => 0x6FC0,
        150 => 0x6E80,
        151 => 0xAE41,
        152 => 0xAA01,
        153 => 0x6AC0,
        154 => 0x6B80,
        155 => 0xAB41,
        156 => 0x6900,
        157 => 0xA9C1,
        158 => 0xA881,
        159 => 0x6840,
        160 => 0x7800,
        161 => 0xB8C1,
        162 => 0xB981,
        163 => 0x7940,
        164 => 0xBB01,
        165 => 0x7BC0,
        166 => 0x7A80,
        167 => 0xBA41,
        168 => 0xBE01,
        169 => 0x7EC0,
        170 => 0x7F80,
        171 => 0xBF41,
        172 => 0x7D00,
        173 => 0xBDC1,
        174 => 0xBC81,
        175 => 0x7C40,
        176 => 0xB401,
        177 => 0x74C0,
        178 => 0x7580,
        179 => 0xB541,
        180 => 0x7700,
        181 => 0xB7C1,
        182 => 0xB681,
        183 => 0x7640,
        184 => 0x7200,
        185 => 0xB2C1,
        186 => 0xB381,
        187 => 0x7340,
        188 => 0xB101,
        189 => 0x71C0,
        190 => 0x7080,
        191 => 0xB041,
        192 => 0x5000,
        193 => 0x90C1,
        194 => 0x9181,
        195 => 0x5140,
        196 => 0x9301,
        197 => 0x53C0,
        198 => 0x5280,
        199 => 0x9241,
        200 => 0x9601,
        201 => 0x56C0,
        202 => 0x5780,
        203 => 0x9741,
        204 => 0x5500,
        205 => 0x95C1,
        206 => 0x9481,
        207 => 0x5440,
        208 => 0x9C01,
        209 => 0x5CC0,
        210 => 0x5D80,
        211 => 0x9D41,
        212 => 0x5F00,
        213 => 0x9FC1,
        214 => 0x9E81,
        215 => 0x5E40,
        216 => 0x5A00,
        217 => 0x9AC1,
        218 => 0x9B81,
        219 => 0x5B40,
        220 => 0x9901,
        221 => 0x59C0,
        222 => 0x5880,
        223 => 0x9841,
        224 => 0x8801,
        225 => 0x48C0,
        226 => 0x4980,
        227 => 0x8941,
        228 => 0x4B00,
        229 => 0x8BC1,
        230 => 0x8A81,
        231 => 0x4A40,
        232 => 0x4E00,
        233 => 0x8EC1,
        234 => 0x8F81,
        235 => 0x4F40,
        236 => 0x8D01,
        237 => 0x4DC0,
        238 => 0x4C80,
        239 => 0x8C41,
        240 => 0x4400,
        241 => 0x84C1,
        242 => 0x8581,
        243 => 0x4540,
        244 => 0x8701,
        245 => 0x47C0,
        246 => 0x4680,
        247 => 0x8641,
        248 => 0x8201,
        249 => 0x42C0,
        250 => 0x4380,
        251 => 0x8341,
        252 => 0x4100,
        253 => 0x81C1,
        254 => 0x8081,
        _ => 0x4040,
    }
}

/// The 12-bit checksum of `data`: the bits of each byte are added to the low end of the
/// register, which is then shifted by eight.
pub open spec fn crc12_of(seed: u16, data: Seq<u8>) -> u16
    decreases data.len(),
{
    if data.len() == 0 {
        seed & 0x0FFF
    } else {
        byte12(crc12_of(seed, data.drop_last()) ^ (data.last() as u16))
    }
}

/// The 16-bit checksum of `data`.
pub open spec fn crc16_of(seed: u16, data: Seq<u8>) -> u16
    decreases data.len(),
{
    if data.len() == 0 {
        seed
    } else {
        byte16(crc16_of(seed, data.drop_last()) ^ (data.last() as u16))
    }
}

/// The 12-bit checksum has 12 bits.
pub proof fn crc12_fits(seed: u16, data: Seq<u8>)
    ensures
        crc12_of(seed, data) <= 0x0FFF,
    decreases data.len(),
{
    if data.len() == 0 {
        assert(seed & 0x0FFF <= 0x0FFF) by (bit_vector);
    } else {
        let c = crc12_of(seed, data.drop_last());
        let b = data.last();
        crc12_fits(seed, data.drop_last());
        assert(c <= 0x0FFF ==> byte12(c ^ (b as u16)) <= 0x0FFF) by (bit_vector);
    }
}

/// Computes the 12-bit checksum of `data`, one table entry for each byte.
pub fn crc12(seed: u16, data: &[u8]) -> (r: u16)
    ensures
        r == crc12_of(seed, data@),
        r <= 0x0FFF,
{
    let mut crc = seed & 0x0FFF;
    let mut i: usize = 0;
    while i < data.len()
        invariant
            i <= data.len(),
            crc == crc12_of(seed, data@.take(i as int)),
        decreases data.len() - i,
    {
        let byte = data[i];
        let ghost before = crc;
        let idx = ((crc & 0xFF) as u8) ^ byte;
        crc = (crc >> 8) ^ crc12_entry(idx);
        proof {
            let t = data@.take(i + 1);
            assert(t.drop_last() == data@.take(i as int));
            assert(t.last() == byte);
            split12(before, byte);
        }
        i = i + 1;
    }
    proof {
        assert(data@.take(i as int) == data@);
        crc12_fits(seed, data@);
    }
    crc
}

proof fn split12(c: u16, b: u8)
    ensures
        (c >> 8) ^ byte12((((c & 0xFF) as u8) ^ b) as u16) == byte12(c ^ (b as u16)),
{
    assert((c >> 8) ^ byte12((((c & 0xFF) as u8) ^ b) as u16) == byte12(c ^ (b as u16)))
        by (bit_vector);
}

proof fn split16(c: u16, b: u8)
    ensures
        (c >> 8) ^ byte16((((c & 0xFF) as u8) ^ b) as u16) == byte16(c ^ (b as u16)),
{
    assert((c >> 8) ^ byte16((((c & 0xFF) as u8) ^ b) as u16) == byte16(c ^ (b as u16)))
        by (bit_vector);
}

/// Start value of the 12-bit checksum on the advertising channel: the low 12 bits of the
/// sync word.
#[verifier::allow_in_spec]
pub fn crc12_adv_seed() -> u16
    returns
        0x0A62u16,
{
    assert((SLE_SYNC_WORD_ADV & 0x0FFF) as u16 == 0x0A62) by (bit_vector);
    (SLE_SYNC_WORD_ADV & 0x0FFF) as u16
}

/// Computes the 16-bit checksum of `data`, one table entry for each byte.
pub fn crc16(seed: u16, data: &[u8]) -> (r: u16)
    ensures
        r == crc16_of(seed, data@),
{
    let mut crc = seed;
    let mut i: usize = 0;
    while i < data.len()
        invariant
            i <= data.len(),
            crc == crc16_of(seed, data@.take(i as int)),
        decreases data.len() - i,
    {
        let byte = data[i];
        let ghost before = crc;
        let idx = ((crc & 0xFF) as u8) ^ byte;
        crc = (crc >> 8) ^ crc16_entry(idx);
        proof {
            let t = data@.take(i + 1);
            assert(t.drop_last() == data@.take(i as int));
            assert(t.last() == byte);
            split16(before, byte);
        }
        i = i + 1;
    }
    assert(data@.take(i as int) == data@);
    crc
}

/// Whether the last two bytes of a packet, lowest first, are the 16-bit checksum of
/// those before.
pub open spec fn crc16_sound(seed: u16, packet: Seq<u8>) -> bool {
    &&& packet.len() >= 2
    &&& crc16_of(seed, packet.take(packet.len() - 2)) == bytes::le16(
        packet[packet.len() - 2],
        packet[packet.len() - 1],
    )
}

/// Whether a packet ends in its 16-bit checksum.
pub fn crc16_verify(seed: u16, packet: &[u8]) -> (r: bool)
    ensures
        r == crc16_sound(seed, packet@),
{
    if packet.len() < 2 {
        return false;
    }
    let data_len = packet.len() - 2;
    let data = bytes::slice_of(packet, 0, data_len);
    assert(data@ == packet@.take(packet@.len() - 2));
    let computed = crc16(seed, data.as_slice());
    computed == bytes::le16(packet[data_len], packet[data_len + 1])
}

/// Writes the 16-bit checksum of the first `data_len` bytes behind them, lowest byte
/// first.
pub fn crc16_append(seed: u16, buf: &mut [u8], data_len: usize)
    requires
        data_len + 2 <= old(buf)@.len(),
    ensures
        final(buf)@ == old(buf)@.update(
            data_len as int,
            bytes::lo8(crc16_of(seed, old(buf)@.take(data_len as int))),
        ).update(
            data_len + 1,
            bytes::hi8(crc16_of(seed, old(buf)@.take(data_len as int))),
        ),
{
    let data = bytes::slice_of(buf, 0, data_len);
    assert(data@ == buf@.take(data_len as int));
    let crc = crc16(seed, data.as_slice());
    buf[data_len] = bytes::lo8(crc);
    buf[data_len + 1] = bytes::hi8(crc);
}

/// A packet to which its checksum was appended is found sound.
pub proof fn appended_is_sound(seed: u16, data: Seq<u8>)
    ensures
        crc16_sound(
            seed,
            data.push(bytes::lo8(crc16_of(seed, data))).push(bytes::hi8(crc16_of(seed, data))),
        ),
{
    broadcast use bytes::le16_of_bytes;
    let p = data.push(bytes::lo8(crc16_of(seed, data))).push(bytes::hi8(crc16_of(seed, data)));
    assert(p.take(p.len() - 2) =~= data);
}

proof fn register12(a: u16, b: u16)
    ensures
        a <= 0x0FFF && b <= 0x0FFF && byte12(a) == byte12(b) ==> a == b,
{
    assert(a <= 0x0FFF && b <= 0x0FFF && byte12(a) == byte12(b) ==> a == b) by (bit_vector);
}

proof fn register16(a: u16, b: u16)
    ensures
        byte16(a) == byte16(b) ==> a == b,
{
    assert(byte16(a) == byte16(b) ==> a == b) by (bit_vector);
}

proof fn added(c: u16, d: u16, x: u8, y: u8)
    ensures
        c != d ==> c ^ (x as u16) != d ^ (x as u16),
        x != y ==> c ^ (x as u16) != c ^ (y as u16),
        c <= 0x0FFF ==> c ^ (x as u16) <= 0x0FFF,
        d <= 0x0FFF ==> d ^ (x as u16) <= 0x0FFF,
        c <= 0x0FFF ==> c ^ (y as u16) <= 0x0FFF,
{
    assert(c != d ==> c ^ (x as u16) != d ^ (x as u16)) by (bit_vector);
    assert(x != y ==> c ^ (x as u16) != c ^ (y as u16)) by (bit_vector);
    assert(forall|e: u16, z: u8| e <= 0x0FFF ==> #[trigger] (e ^ (z as u16)) <= 0x0FFF)
        by (bit_vector);
}

/// Both checksums tell data apart that differ in one byte.
pub proof fn one_byte_changed(seed: u16, data: Seq<u8>, i: int, b: u8)
    requires
        0 <= i < data.len(),
        data[i] != b,
    ensures
        crc12_of(seed, data.update(i, b)) != crc12_of(seed, data),
        crc16_of(seed, data.update(i, b)) != crc16_of(seed, data),
    decreases data.len(),
{
    let d = data.drop_last();
    let e = data.update(i, b);
    let x = data.last();
    let c = crc12_of(seed, d);
    let s = crc16_of(seed, d);
    crc12_fits(seed, d);
    if i == data.len() - 1 {
        assert(e.drop_last() =~= d);
        added(c, c, x, b);
        added(s, s, x, b);
        register12(c ^ (x as u16), c ^ (b as u16));
        register16(s ^ (x as u16), s ^ (b as u16));
    } else {
        one_byte_changed(seed, d, i, b);
        assert(e.drop_last() =~= d.update(i, b));
        assert(e.last() == x);
        let c2 = crc12_of(seed, d.update(i, b));
        let s2 = crc16_of(seed, d.update(i, b));
        crc12_fits(seed, d.update(i, b));
        added(c, c2, x, x);
        added(s, s2, x, x);
        register12(c ^ (x as u16), c2 ^ (x as u16));
        register16(s ^ (x as u16), s2 ^ (x as u16));
    }
}

} // verus!
