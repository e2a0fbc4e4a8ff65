use vstd::prelude::*;

verus! {

/// What happens to a target's contents at the start of a pass.
#[derive(Clone, Copy, Debug, PartialEq, Eq, Structural, PartialOrd, Ord, Hash)]
pub enum LoadOp {
    Load,
    DontCare,
    Clear,
}

impl LoadOp {
    /// The native integer encoding.
    pub open spec fn raw_spec(self) -> u32 {
        match self {
            LoadOp::Load => 0,
            LoadOp::DontCare => 2,
            LoadOp::Clear => 1,
        }
    }

    /// The value whose native encoding is `raw`, if any.
    pub open spec fn from_raw_spec(raw: u32) -> Option<LoadOp> {
        match raw {
            0 => Some(LoadOp::Load),
            2 => Some(LoadOp::DontCare),
            1 => Some(LoadOp::Clear),
            _ => None,
        }
    }

    /// The native integer encoding.
    pub fn raw(self) -> (r: u32)
        ensures
            r == self.raw_spec(),
    {
        match self {
            LoadOp::Load => 0,
            LoadOp::DontCare => 2,
            LoadOp::Clear => 1,
        }
    }

    /// The value whose native encoding is `raw`, if any.
    pub fn from_raw(raw: u32) -> (r: Option<LoadOp>)
        ensures
            r == LoadOp::from_raw_spec(raw),
    {
        match raw {
            0 => Some(LoadOp::Load),
            2 => Some(LoadOp::DontCare),
            1 => Some(LoadOp::Clear),
            _ => None,
        }
    }

    /// Every value survives the trip through its native encoding.
    pub proof fn lemma_raw_round_trip(self)
        ensures
            LoadOp::from_raw_spec(self.raw_spec()) == Some(self),
    {
    }
}

impl Default for LoadOp {
    fn default() -> (r: Self)
        ensures
            r == LoadOp::Load,
    {
        LoadOp::Load
    }
}

/// What happens to a target's contents at the end of a pass.
#[derive(Clone, Copy, Debug, PartialEq, Eq, Structural, PartialOrd, Ord, Hash)]
pub enum StoreOp {
    Store,
    DontCare,
    Resolve,
    ResolveAndStore,
}

impl StoreOp {
    /// The native integer encoding.
    pub open spec fn raw_spec(self) -> u32 {
        match self {
            StoreOp::Store => 0,
            StoreOp::DontCare => 1,
            StoreOp::Resolve => 2,
            StoreOp::ResolveAndStore => 3,
        }
    }

    /// The value whose native encoding is `raw`, if any.
    pub open spec fn from_raw_spec(raw: u32) -> Option<StoreOp> {
        match raw {
            0 => Some(StoreOp::Store),
            1 => Some(StoreOp::DontCare),
            2 => Some(StoreOp::Resolve),
            3 => Some(StoreOp::ResolveAndStore),
            _ => None,
        }
    }

    /// The native integer encoding.
    pub fn raw(self) -> (r: u32)
        ensures
            r == self.raw_spec(),
    {
        match self {
            StoreOp::Store => 0,
            StoreOp::DontCare => 1,
            StoreOp::Resolve => 2,
            StoreOp::ResolveAndStore => 3,
        }
    }

    /// The value whose native encoding is `raw`, if any.
    pub fn from_raw(raw: u32) -> (r: Option<StoreOp>)
        ensures
            r == StoreOp::from_raw_spec(raw),
    {
        match raw {
            0 => Some(StoreOp::Store),
            1 => Some(StoreOp::DontCare),
            2 => Some(StoreOp::Resolve),
            3 => Some(StoreOp::ResolveAndStore),
            _ => None,
        }
    }

    /// Every value survives the trip through its native encoding.
    pub proof fn lemma_raw_round_trip(self)
        ensures
            StoreOp::from_raw_spec(self.raw_spec()) == Some(self),
    {
    }
}

impl Default for StoreOp {
    fn default() -> (r: Self)
        ensures
            r == StoreOp::Store,
    {
        StoreOp::Store
    }
}

/// The pixel format of a texture.
#[derive(Clone, Copy, Debug, PartialEq, Eq, Structural, PartialOrd, Ord, Hash)]
pub enum TextureFormat {
    Invalid,
    A8Unorm,
    R8Unorm,
    R8g8Unorm,
    R8g8b8a8Unorm,
    R16Unorm,
    R16g16Unorm,
    R16g16b16a16Unorm,
    R10g10b10a2Unorm,
    B5g6r5Unorm,
    B5g5r5a1Unorm,
    B4g4r4a4Unorm,
    B8g8r8a8Unorm,
    Bc1RgbaUnorm,
    Bc2RgbaUnorm,
    Bc3RgbaUnorm,
    Bc4RUnorm,
    Bc5RgUnorm,
    Bc7RgbaUnorm,
    Bc6hRgbFloat,
    Bc6hRgbUfloat,
    R8Snorm,
    R8g8Snorm,
    R8g8b8a8Snorm,
    R16Snorm,
    R16g16Snorm,
    R16g16b16a16Snorm,
    R16Float,
    R16g16Float,
    R16g16b16a16Float,
    R32Float,
    R32g32Float,
    R32g32b32a32Float,
    R11g11b10Ufloat,
    R8Uint,
    R8g8Uint,
    R8g8b8a8Uint,
    R16Uint,
    R16g16Uint,
    R16g16b16a16Uint,
    R32Uint,
    R32g32Uint,
    R32g32b32a32Uint,
    R8Int,
    R8g8Int,
    R8g8b8a8Int,
    R16Int,
    R16g16Int,
    R16g16b16a16Int,
    R32Int,
    R32g32Int,
    R32g32b32a32Int,
    R8g8b8a8UnormSrgb,
    B8g8r8a8UnormSrgb,
    Bc1RgbaUnormSrgb,
    Bc2RgbaUnormSrgb,
    Bc3RgbaUnormSrgb,
    Bc7RgbaUnormSrgb,
    D16Unorm,
    D24Unorm,
    D32Float,
    D24UnormS8Uint,
    D32FloatS8Uint,
    Astc4x4Unorm,
    Astc5x4Unorm,
    Astc5x5Unorm,
    Astc6x5Unorm,
    Astc6x6Unorm,
    Astc8x5Unorm,
    Astc8x6Unorm,
    Astc8x8Unorm,
    Astc10x5Unorm,
    Astc10x6Unorm,
    Astc10x8Unorm,
    Astc10x10Unorm,
    Astc12x10Unorm,
    Astc12x12Unorm,
    Astc4x4UnormSrgb,
    Astc5x4UnormSrgb,
    Astc5x5UnormSrgb,
    Astc6x5UnormSrgb,
    Astc6x6UnormSrgb,
    Astc8x5UnormSrgb,
    Astc8x6UnormSrgb,
    Astc8x8UnormSrgb,
    Astc10x5UnormSrgb,
    Astc10x6UnormSrgb,
    Astc10x8UnormSrgb,
    Astc10x10UnormSrgb,
    Astc12x10UnormSrgb,
    Astc12x12UnormSrgb,
    Astc4x4Float,
    Astc5x4Float,
    Astc5x5Float,
    Astc6x5Float,
    Astc6x6Float,
    Astc8x5Float,
    Astc8x6Float,
    Astc8x8Float,
    Astc10x5Float,
    Astc10x6Float,
    Astc10x8Float,
    Astc10x10Float,
    Astc12x10Float,
    Astc12x12Float,
}

impl TextureFormat {
    /// The native integer encoding.
    pub open spec fn raw_spec(self) -> u32 {
        match self {
            TextureFormat::Invalid => 0,
            TextureFormat::A8Unorm => 1,
            TextureFormat::R8Unorm => 2,
            TextureFormat::R8g8Unorm => 3,
            TextureFormat::R8g8b8a8Unorm => 4,
            TextureFormat::R16Unorm => 5,
            TextureFormat::R16g16Unorm => 6,
            TextureFormat::R16g16b16a16Unorm => 7,
            TextureFormat::R10g10b10a2Unorm => 8,
            TextureFormat::B5g6r5Unorm => 9,
            TextureFormat::B5g5r5a1Unorm => 10,
            TextureFormat::B4g4r4a4Unorm => 11,
            TextureFormat::B8g8r8a8Unorm => 12,
            TextureFormat::Bc1RgbaUnorm => 13,
            TextureFormat::Bc2RgbaUnorm => 14,
            TextureFormat::Bc3RgbaUnorm => 15,
            TextureFormat::Bc4RUnorm => 16,
            TextureFormat::Bc5RgUnorm => 17,
            TextureFormat::Bc7RgbaUnorm => 18,
            TextureFormat::Bc6hRgbFloat => 19,
            TextureFormat::Bc6hRgbUfloat => 20,
            TextureFormat::R8Snorm => 21,
            TextureFormat::R8g8Snorm => 22,
            TextureFormat::R8g8b8a8Snorm => 23,
            TextureFormat::R16Snorm => 24,
            TextureFormat::R16g16Snorm => 25,
            TextureFormat::R16g16b16a16Snorm => 26,
            TextureFormat::R16Float => 27,
            TextureFormat::R16g16Float => 28,
            TextureFormat::R16g16b16a16Float => 29,
            TextureFormat::R32Float => 30,
            TextureFormat::R32g32Float => 31,
            TextureFormat::R32g32b32a32Float => 32,
            TextureFormat::R11g11b10Ufloat => 33,
            TextureFormat::R8Uint => 34,
            TextureFormat::R8g8Uint => 35,
            TextureFormat::R8g8b8a8Uint => 36,
            TextureFormat::R16Uint => 37,
            TextureFormat::R16g16Uint => 38,
            TextureFormat::R16g16b16a16Uint => 39,
            TextureFormat::R32Uint => 40,
            TextureFormat::R32g32Uint => 41,
            TextureFormat::R32g32b32a32Uint => 42,
            TextureFormat::R8Int => 43,
            TextureFormat::R8g8Int => 44,
            TextureFormat::R8g8b8a8Int => 45,
            TextureFormat::R16Int => 46,
            TextureFormat::R16g16Int => 47,
            TextureFormat::R16g16b16a16Int => 48,
            TextureFormat::R32Int => 49,
            TextureFormat::R32g32Int => 50,
            TextureFormat::R32g32b32a32Int => 51,
            TextureFormat::R8g8b8a8UnormSrgb => 52,
            TextureFormat::B8g8r8a8UnormSrgb => 53,
            TextureFormat::Bc1RgbaUnormSrgb => 54,
            TextureFormat::Bc2RgbaUnormSrgb => 55,
            TextureFormat::Bc3RgbaUnormSrgb => 56,
            TextureFormat::Bc7RgbaUnormSrgb => 57,
            TextureFormat::D16Unorm => 58,
            TextureFormat::D24Unorm => 59,
            TextureFormat::D32Float => 60,
            TextureFormat::D24UnormS8Uint => 61,
            TextureFormat::D32FloatS8Uint => 62,
            TextureFormat::Astc4x4Unorm => 63,
            TextureFormat::Astc5x4Unorm => 64,
            TextureFormat::Astc5x5Unorm => 65,
            TextureFormat::Astc6x5Unorm => 66,
            TextureFormat::Astc6x6Unorm => 67,
            TextureFormat::Astc8x5Unorm => 68,
            TextureFormat::Astc8x6Unorm => 69,
            TextureFormat::Astc8x8Unorm => 70,
            TextureFormat::Astc10x5Unorm => 71,
            TextureFormat::Astc10x6Unorm => 72,
            TextureFormat::Astc10x8Unorm => 73,
            TextureFormat::Astc10x10Unorm => 74,
            TextureFormat::Astc12x10Unorm => 75,
            TextureFormat::Astc12x12Unorm => 76,
            TextureFormat::Astc4x4UnormSrgb => 77,
            TextureFormat::Astc5x4UnormSrgb => 78,
            TextureFormat::Astc5x5UnormSrgb => 79,
            TextureFormat::Astc6x5UnormSrgb => 80,
            TextureFormat::Astc6x6UnormSrgb => 81,
            TextureFormat::Astc8x5UnormSrgb => 82,
            TextureFormat::Astc8x6UnormSrgb => 83,
            TextureFormat::Astc8x8UnormSrgb => 84,
            TextureFormat::Astc10x5UnormSrgb => 85,
            TextureFormat::Astc10x6UnormSrgb => 86,
            TextureFormat::Astc10x8UnormSrgb => 87,
            TextureFormat::Astc10x10UnormSrgb => 88,
            TextureFormat::Astc12x10UnormSrgb => 89,
            TextureFormat::Astc12x12UnormSrgb => 90,
            TextureFormat::Astc4x4Float => 91,
            TextureFormat::Astc5x4Float => 92,
            TextureFormat::Astc5x5Float => 93,
            TextureFormat::Astc6x5Float => 94,
            TextureFormat::Astc6x6Float => 95,
            TextureFormat::Astc8x5Float => 96,
            TextureFormat::Astc8x6Float => 97,
            TextureFormat::Astc8x8Float => 98,
            TextureFormat::Astc10x5Float => 99,
            TextureFormat::Astc10x6Float => 100,
            TextureFormat::Astc10x8Float => 101,
            TextureFormat::Astc10x10Float => 102,
            TextureFormat::Astc12x10Float => 103,
            TextureFormat::Astc12x12Float => 104,
        }
    }

    /// The value whose native encoding is `raw`, if any.
    pub open spec fn from_raw_spec(raw: u32) -> Option<TextureFormat> {
        match raw {
            0 => Some(TextureFormat::Invalid),
            1 => Some(TextureFormat::A8Unorm),
            2 => Some(TextureFormat::R8Unorm),
            3 => Some(TextureFormat::R8g8Unorm),
            4 => Some(TextureFormat::R8g8b8a8Unorm),
            5 => Some(TextureFormat::R16Unorm),
            6 => Some(TextureFormat::R16g16Unorm),
            7 => Some(TextureFormat::R16g16b16a16Unorm),
            8 => Some(TextureFormat::R10g10b10a2Unorm),
            9 => Some(TextureFormat::B5g6r5Unorm),
            10 => Some(TextureFormat::B5g5r5a1Unorm),
            11 => Some(TextureFormat::B4g4r4a4Unorm),
            12 => Some(TextureFormat::B8g8r8a8Unorm),
            13 => Some(TextureFormat::Bc1RgbaUnorm),
            14 => Some(TextureFormat::Bc2RgbaUnorm),
            15 => Some(TextureFormat::Bc3RgbaUnorm),
            16 => Some(TextureFormat::Bc4RUnorm),
            17 => Some(TextureFormat::Bc5RgUnorm),
            18 => Some(TextureFormat::Bc7RgbaUnorm),
            19 => Some(TextureFormat::Bc6hRgbFloat),
            20 => Some(TextureFormat::Bc6hRgbUfloat),
            21 => Some(TextureFormat::R8Snorm),
            22 => Some(TextureFormat::R8g8Snorm),
            23 => Some(TextureFormat::R8g8b8a8Snorm),
            24 => Some(TextureFormat::R16Snorm),
            25 => Some(TextureFormat::R16g16Snorm),
            26 => Some(TextureFormat::R16g16b16a16Snorm),
            27 => Some(TextureFormat::R16Float),
            28 => Some(TextureFormat::R16g16Float),
            29 => Some(TextureFormat::R16g16b16a16Float),
            30 => Some(TextureFormat::R32Float),
            31 => Some(TextureFormat::R32g32Float),
            32 => Some(TextureFormat::R32g32b32a32Float),
            33 => Some(TextureFormat::R11g11b10Ufloat),
            34 => Some(TextureFormat::R8Uint),
            35 => Some(TextureFormat::R8g8Uint),
            36 => Some(TextureFormat::R8g8b8a8Uint),
            37 => Some(TextureFormat::R16Uint),
            38 => Some(TextureFormat::R16g16Uint),
            39 => Some(TextureFormat::R16g16b16a16Uint),
            40 => Some(TextureFormat::R32Uint),
            41 => Some(TextureFormat::R32g32Uint),
            42 => Some(TextureFormat::R32g32b32a32Uint),
            43 => Some(TextureFormat::R8Int),
            44 => Some(TextureFormat::R8g8Int),
            45 => Some(TextureFormat::R8g8b8a8Int),
            46 => Some(TextureFormat::R16Int),
            47 => Some(TextureFormat::R16g16Int),
            48 => Some(TextureFormat::R16g16b16a16Int),
            49 => Some(TextureFormat::R32Int),
            50 => Some(TextureFormat::R32g32Int),
            51 => Some(TextureFormat::R32g32b32a32Int),
            52 => Some(TextureFormat::R8g8b8a8UnormSrgb),
            53 => Some(TextureFormat::B8g8r8a8UnormSrgb),
            54 => Some(TextureFormat::Bc1RgbaUnormSrgb),
            55 => Some(TextureFormat::Bc2RgbaUnormSrgb),
            56 => Some(TextureFormat::Bc3RgbaUnormSrgb),
            57 => Some(TextureFormat::Bc7RgbaUnormSrgb),
            58 => Some(TextureFormat::D16Unorm),
            59 => Some(TextureFormat::D24Unorm),
            60 => Some(TextureFormat::D32Float),
            61 => Some(TextureFormat::D24UnormS8Uint),
            62 => Some(TextureFormat::D32FloatS8Uint),
            63 => Some(TextureFormat::Astc4x4Unorm),
            64 => Some(TextureFormat::Astc5x4Unorm),
            65 => Some(TextureFormat::Astc5x5Unorm),
            66 => Some(TextureFormat::Astc6x5Unorm),
            67 => Some(TextureFormat::Astc6x6Unorm),
            68 => Some(TextureFormat::Astc8x5Unorm),
            69 => Some(TextureFormat::Astc8x6Unorm),
            70 => Some(TextureFormat::Astc8x8Unorm),
            71 => Some(TextureFormat::Astc10x5Unorm),
            72 => Some(TextureFormat::Astc10x6Unorm),
            73 => Some(TextureFormat::Astc10x8Unorm),
            74 => Some(TextureFormat::Astc10x10Unorm),
            75 => Some(TextureFormat::Astc12x10Unorm),
            76 => Some(TextureFormat::Astc12x12Unorm),
            77 => Some(TextureFormat::Astc4x4UnormSrgb),
            78 => Some(TextureFormat::Astc5x4UnormSrgb),
            79 => Some(TextureFormat::Astc5x5UnormSrgb),
            80 => Some(TextureFormat::Astc6x5UnormSrgb),
            81 => Some(TextureFormat::Astc6x6UnormSrgb),
            82 => Some(TextureFormat::Astc8x5UnormSrgb),
            83 => Some(TextureFormat::Astc8x6UnormSrgb),
            84 => Some(TextureFormat::Astc8x8UnormSrgb),
            85 => Some(TextureFormat::Astc10x5UnormSrgb),
            86 => Some(TextureFormat::Astc10x6UnormSrgb),
            87 => Some(TextureFormat::Astc10x8UnormSrgb),
            88 => Some(TextureFormat::Astc10x10UnormSrgb),
            89 => Some(TextureFormat::Astc12x10UnormSrgb),
            90 => Some(TextureFormat::Astc12x12UnormSrgb),
            91 => Some(TextureFormat::Astc4x4Float),
            92 => Some(TextureFormat::Astc5x4Float),
            93 => Some(TextureFormat::Astc5x5Float),
            94 => Some(TextureFormat::Astc6x5Float),
            95 => Some(TextureFormat::Astc6x6Float),
            96 => Some(TextureFormat::Astc8x5Float),
            97 => Some(TextureFormat::Astc8x6Float),
            98 => Some(TextureFormat::Astc8x8Float),
            99 => Some(TextureFormat::Astc10x5Float),
            100 => Some(TextureFormat::Astc10x6Float),
            101 => Some(TextureFormat::Astc10x8Float),
            102 => Some(TextureFormat::Astc10x10Float),
            103 => Some(TextureFormat::Astc12x10Float),
            104 => Some(TextureFormat::Astc12x12Float),
            _ => None,
        }
    }

    /// The native integer encoding.
    pub fn raw(self) -> (r: u32)
        ensures
            r == self.raw_spec(),
    {
        match self {
            TextureFormat::Invalid => 0,
            TextureFormat::A8Unorm => 1,
            TextureFormat::R8Unorm => 2,
            TextureFormat::R8g8Unorm => 3,
            TextureFormat::R8g8b8a8Unorm => 4,
            TextureFormat::R16Unorm => 5,
            TextureFormat::R16g16Unorm => 6,
            TextureFormat::R16g16b16a16Unorm => 7,
            TextureFormat::R10g10b10a2Unorm => 8,
            TextureFormat::B5g6r5Unorm => 9,
            TextureFormat::B5g5r5a1Unorm => 10,
            TextureFormat::B4g4r4a4Unorm => 11,
            TextureFormat::B8g8r8a8Unorm => 12,
            TextureFormat::Bc1RgbaUnorm => 13,
            TextureFormat::Bc2RgbaUnorm => 14,
            TextureFormat::Bc3RgbaUnorm => 15,
            TextureFormat::Bc4RUnorm => 16,
            TextureFormat::Bc5RgUnorm => 17,
            TextureFormat::Bc7RgbaUnorm => 18,
            TextureFormat::Bc6hRgbFloat => 19,
            TextureFormat::Bc6hRgbUfloat => 20,
            TextureFormat::R8Snorm => 21,
            TextureFormat::R8g8Snorm => 22,
            TextureFormat::R8g8b8a8Snorm => 23,
            TextureFormat::R16Snorm => 24,
            TextureFormat::R16g16Snorm => 25,
            TextureFormat::R16g16b16a16Snorm => 26,
            TextureFormat::R16Float => 27,
            TextureFormat::R16g16Float => 28,
            TextureFormat::R16g16b16a16Float => 29,
            TextureFormat::R32Float => 30,
            TextureFormat::R32g32Float => 31,
            TextureFormat::R32g32b32a32Float => 32,
            TextureFormat::R11g11b10Ufloat => 33,
            TextureFormat::R8Uint => 34,
            TextureFormat::R8g8Uint => 35,
            TextureFormat::R8g8b8a8Uint => 36,
            TextureFormat::R16Uint => 37,
            TextureFormat::R16g16Uint => 38,
            TextureFormat::R16g16b16a16Uint => 39,
            TextureFormat::R32Uint => 40,
            TextureFormat::R32g32Uint => 41,
            TextureFormat::R32g32b32a32Uint => 42,
            TextureFormat::R8Int => 43,
            TextureFormat::R8g8Int => 44,
            TextureFormat::R8g8b8a8Int => 45,
            TextureFormat::R16Int => 46,
            TextureFormat::R16g16Int => 47,
            TextureFormat::R16g16b16a16Int => 48,
            TextureFormat::R32Int => 49,
            TextureFormat::R32g32Int => 50,
            TextureFormat::R32g32b32a32Int => 51,
            TextureFormat::R8g8b8a8UnormSrgb => 52,
            TextureFormat::B8g8r8a8UnormSrgb => 53,
            TextureFormat::Bc1RgbaUnormSrgb => 54,
            TextureFormat::Bc2RgbaUnormSrgb => 55,
            TextureFormat::Bc3RgbaUnormSrgb => 56,
            TextureFormat::Bc7RgbaUnormSrgb => 57,
            TextureFormat::D16Unorm => 58,
            TextureFormat::D24Unorm => 59,
            TextureFormat::D32Float => 60,
            TextureFormat::D24UnormS8Uint => 61,
            TextureFormat::D32FloatS8Uint => 62,
            TextureFormat::Astc4x4Unorm => 63,
            TextureFormat::Astc5x4Unorm => 64,
            TextureFormat::Astc5x5Unorm => 65,
            TextureFormat::Astc6x5Unorm => 66,
            TextureFormat::Astc6x6Unorm => 67,
            TextureFormat::Astc8x5Unorm => 68,
            TextureFormat::Astc8x6Unorm => 69,
            TextureFormat::Astc8x8Unorm => 70,
            TextureFormat::Astc10x5Unorm => 71,
            TextureFormat::Astc10x6Unorm => 72,
            TextureFormat::Astc10x8Unorm => 73,
            TextureFormat::Astc10x10Unorm => 74,
            TextureFormat::Astc12x10Unorm => 75,
            TextureFormat::Astc12x12Unorm => 76,
            TextureFormat::Astc4x4UnormSrgb => 77,
            TextureFormat::Astc5x4UnormSrgb => 78,
            TextureFormat::Astc5x5UnormSrgb => 79,
            TextureFormat::Astc6x5UnormSrgb => 80,
            TextureFormat::Astc6x6UnormSrgb => 81,
            TextureFormat::Astc8x5UnormSrgb => 82,
            TextureFormat::Astc8x6UnormSrgb => 83,
            TextureFormat::Astc8x8UnormSrgb => 84,
            TextureFormat::Astc10x5UnormSrgb => 85,
            TextureFormat::Astc10x6UnormSrgb => 86,
            TextureFormat::Astc10x8UnormSrgb => 87,
            TextureFormat::Astc10x10UnormSrgb => 88,
            TextureFormat::Astc12x10UnormSrgb => 89,
            TextureFormat::Astc12x12UnormSrgb => 90,
            TextureFormat::Astc4x4Float => 91,
            TextureFormat::Astc5x4Float => 92,
            TextureFormat::Astc5x5Float => 93,
            TextureFormat::Astc6x5Float => 94,
            TextureFormat::Astc6x6Float => 95,
            TextureFormat::Astc8x5Float => 96,
            TextureFormat::Astc8x6Float => 97,
            TextureFormat::Astc8x8Float => 98,
            TextureFormat::Astc10x5Float => 99,
            TextureFormat::Astc10x6Float => 100,
            TextureFormat::Astc10x8Float => 101,
            TextureFormat::Astc10x10Float => 102,
            TextureFormat::Astc12x10Float => 103,
            TextureFormat::Astc12x12Float => 104,
        }
    }

    /// The value whose native encoding is `raw`, if any.
    pub fn from_raw(raw: u32) -> (r: Option<TextureFormat>)
        ensures
            r == TextureFormat::from_raw_spec(raw),
    {
        match raw {
            0 => Some(TextureFormat::Invalid),
            1 => Some(TextureFormat::A8Unorm),
            2 => Some(TextureFormat::R8Unorm),
            3 => Some(TextureFormat::R8g8Unorm),
            4 => Some(TextureFormat::R8g8b8a8Unorm),
            5 => Some(TextureFormat::R16Unorm),
            6 => Some(TextureFormat::R16g16Unorm),
            7 => Some(TextureFormat::R16g16b16a16Unorm),
            8 => Some(TextureFormat::R10g10b10a2Unorm),
            9 => Some(TextureFormat::B5g6r5Unorm),
            10 => Some(TextureFormat::B5g5r5a1Unorm),
            11 => Some(TextureFormat::B4g4r4a4Unorm),
            12 => Some(TextureFormat::B8g8r8a8Unorm),
            13 => Some(TextureFormat::Bc1RgbaUnorm),
            14 => Some(TextureFormat::Bc2RgbaUnorm),
            15 => Some(TextureFormat::Bc3RgbaUnorm),
            16 => Some(TextureFormat::Bc4RUnorm),
            17 => Some(TextureFormat::Bc5RgUnorm),
            18 => Some(TextureFormat::Bc7RgbaUnorm),
            19 => Some(TextureFormat::Bc6hRgbFloat),
            20 => Some(TextureFormat::Bc6hRgbUfloat),
            21 => Some(TextureFormat::R8Snorm),
            22 => Some(TextureFormat::R8g8Snorm),
            23 => Some(TextureFormat::R8g8b8a8Snorm),
            24 => Some(TextureFormat::R16Snorm),
            25 => Some(TextureFormat::R16g16Snorm),
            26 => Some(TextureFormat::R16g16b16a16Snorm),
            27 => Some(TextureFormat::R16Float),
            28 => Some(TextureFormat::R16g16Float),
            29 => Some(TextureFormat::R16g16b16a16Float),
            30 => Some(TextureFormat::R32Float),
            31 => Some(TextureFormat::R32g32Float),
            32 => Some(TextureFormat::R32g32b32a32Float),
            33 => Some(TextureFormat::R11g11b10Ufloat),
            34 => Some(TextureFormat::R8Uint),
            35 => Some(TextureFormat::R8g8Uint),
            36 => Some(TextureFormat::R8g8b8a8Uint),
            37 => Some(TextureFormat::R16Uint),
            38 => Some(TextureFormat::R16g16Uint),
            39 => Some(TextureFormat::R16g16b16a16Uint),
            40 => Some(TextureFormat::R32Uint),
            41 => Some(TextureFormat::R32g32Uint),
            42 => Some(TextureFormat::R32g32b32a32Uint),
            43 => Some(TextureFormat::R8Int),
            44 => Some(TextureFormat::R8g8Int),
            45 => Some(TextureFormat::R8g8b8a8Int),
            46 => Some(TextureFormat::R16Int),
            47 => Some(TextureFormat::R16g16Int),
            48 => Some(TextureFormat::R16g16b16a16Int),
            49 => Some(TextureFormat::R32Int),
            50 => Some(TextureFormat::R32g32Int),
            51 => Some(TextureFormat::R32g32b32a32Int),
            52 => Some(TextureFormat::R8g8b8a8UnormSrgb),
            53 => Some(TextureFormat::B8g8r8a8UnormSrgb),
            54 => Some(TextureFormat::Bc1RgbaUnormSrgb),
            55 => Some(TextureFormat::Bc2RgbaUnormSrgb),
            56 => Some(TextureFormat::Bc3RgbaUnormSrgb),
            57 => Some(TextureFormat::Bc7RgbaUnormSrgb),
            58 => Some(TextureFormat::D16Unorm),
            59 => Some(TextureFormat::D24Unorm),
            60 => Some(TextureFormat::D32Float),
            61 => Some(TextureFormat::D24UnormS8Uint),
            62 => Some(TextureFormat::D32FloatS8Uint),
            63 => Some(TextureFormat::Astc4x4Unorm),
            64 => Some(TextureFormat::Astc5x4Unorm),
            65 => Some(TextureFormat::Astc5x5Unorm),
            66 => Some(TextureFormat::Astc6x5Unorm),
            67 => Some(TextureFormat::Astc6x6Unorm),
            68 => Some(TextureFormat::Astc8x5Unorm),
            69 => Some(TextureFormat::Astc8x6Unorm),
            70 => Some(TextureFormat::Astc8x8Unorm),
            71 => Some(TextureFormat::Astc10x5Unorm),
            72 => Some(TextureFormat::Astc10x6Unorm),
            73 => Some(TextureFormat::Astc10x8Unorm),
            74 => Some(TextureFormat::Astc10x10Unorm),
            75 => Some(TextureFormat::Astc12x10Unorm),
            76 => Some(TextureFormat::Astc12x12Unorm),
            77 => Some(TextureFormat::Astc4x4UnormSrgb),
            78 => Some(TextureFormat::Astc5x4UnormSrgb),
            79 => Some(TextureFormat::Astc5x5UnormSrgb),
            80 => Some(TextureFormat::Astc6x5UnormSrgb),
            81 => Some(TextureFormat::Astc6x6UnormSrgb),
            82 => Some(TextureFormat::Astc8x5UnormSrgb),
            83 => Some(TextureFormat::Astc8x6UnormSrgb),
            84 => Some(TextureFormat::Astc8x8UnormSrgb),
            85 => Some(TextureFormat::Astc10x5UnormSrgb),
            86 => Some(TextureFormat::Astc10x6UnormSrgb),
            87 => Some(TextureFormat::Astc10x8UnormSrgb),
            88 => Some(TextureFormat::Astc10x10UnormSrgb),
            89 => Some(TextureFormat::Astc12x10UnormSrgb),
            90 => Some(TextureFormat::Astc12x12UnormSrgb),
            91 => Some(TextureFormat::Astc4x4Float),
            92 => Some(TextureFormat::Astc5x4Float),
            93 => Some(TextureFormat::Astc5x5Float),
            94 => Some(TextureFormat::Astc6x5Float),
            95 => Some(TextureFormat::Astc6x6Float),
            96 => Some(TextureFormat::Astc8x5Float),
            97 => Some(TextureFormat::Astc8x6Float),
            98 => Some(TextureFormat::Astc8x8Float),
            99 => Some(TextureFormat::Astc10x5Float),
            100 => Some(TextureFormat::Astc10x6Float),
            101 => Some(TextureFormat::Astc10x8Float),
            102 => Some(TextureFormat::Astc10x10Float),
            103 => Some(TextureFormat::Astc12x10Float),
            104 => Some(TextureFormat::Astc12x12Float),
            _ => None,
        }
    }

    /// Every value survives the trip through its native encoding.
    pub proof fn lemma_raw_round_trip(self)
        ensures
            TextureFormat::from_raw_spec(self.raw_spec()) == Some(self),
    {
    }
}

impl Default for TextureFormat {
    fn default() -> (r: Self)
        ensures
            r == TextureFormat::Invalid,
    {
        TextureFormat::Invalid
    }
}

/// A shader bytecode format.
#[derive(Clone, Copy, Debug, PartialEq, Eq, Structural, PartialOrd, Ord, Hash)]
pub enum ShaderFormat {
    Invalid,
    Dxbc,
    Dxil,
    MetalLib,
    Msl,
    Private,
    SpirV,
}

impl ShaderFormat {
    /// The native integer encoding.
    pub open spec fn raw_spec(self) -> u32 {
        match self {
            ShaderFormat::Invalid => 0,
            ShaderFormat::Dxbc => 4,
            ShaderFormat::Dxil => 8,
            ShaderFormat::MetalLib => 32,
            ShaderFormat::Msl => 16,
            ShaderFormat::Private => 1,
            ShaderFormat::SpirV => 2,
        }
    }

    /// The value whose native encoding is `raw`, if any.
    pub open spec fn from_raw_spec(raw: u32) -> Option<ShaderFormat> {
        match raw {
            0 => Some(ShaderFormat::Invalid),
            4 => Some(ShaderFormat::Dxbc),
            8 => Some(ShaderFormat::Dxil),
            32 => Some(ShaderFormat::MetalLib),
            16 => Some(ShaderFormat::Msl),
            1 => Some(ShaderFormat::Private),
            2 => Some(ShaderFormat::SpirV),
            _ => None,
        }
    }

    /// The native integer encoding.
    pub fn raw(self) -> (r: u32)
        ensures
            r == self.raw_spec(),
    {
        match self {
            ShaderFormat::Invalid => 0,
            ShaderFormat::Dxbc => 4,
            ShaderFormat::Dxil => 8,
            ShaderFormat::MetalLib => 32,
            ShaderFormat::Msl => 16,
            ShaderFormat::Private => 1,
            ShaderFormat::SpirV => 2,
        }
    }

    /// The value whose native encoding is `raw`, if any.
    pub fn from_raw(raw: u32) -> (r: Option<ShaderFormat>)
        ensures
            r == ShaderFormat::from_raw_spec(raw),
    {
        match raw {
            0 => Some(ShaderFormat::Invalid),
            4 => Some(ShaderFormat::Dxbc),
            8 => Some(ShaderFormat::Dxil),
            32 => Some(ShaderFormat::MetalLib),
            16 => Some(ShaderFormat::Msl),
            1 => Some(ShaderFormat::Private),
            2 => Some(ShaderFormat::SpirV),
            _ => None,
        }
    }

    /// Every value survives the trip through its native encoding.
    pub proof fn lemma_raw_round_trip(self)
        ensures
            ShaderFormat::from_raw_spec(self.raw_spec()) == Some(self),
    {
    }
}

impl Default for ShaderFormat {
    fn default() -> (r: Self)
        ensures
            r == ShaderFormat::Invalid,
    {
        ShaderFormat::Invalid
    }
}

/// How a texture is intended to be used.
#[derive(Clone, Copy, Debug, PartialEq, Eq, Structural, PartialOrd, Ord, Hash)]
pub enum TextureUsage {
    Invalid,
    ComputeStorageWrite,
    ComputeStorageRead,
    ComputeSimultaneousReadWrite,
    DepthStencilTarget,
    GraphicsStorageRead,
    Sampler,
    ColorTarget,
}

impl TextureUsage {
    /// The native integer encoding.
    pub open spec fn raw_spec(self) -> u32 {
        match self {
            TextureUsage::Invalid => 0,
            TextureUsage::ComputeStorageWrite => 32,
            TextureUsage::ComputeStorageRead => 16,
            TextureUsage::ComputeSimultaneousReadWrite => 64,
            TextureUsage::DepthStencilTarget => 4,
            TextureUsage::GraphicsStorageRead => 8,
            TextureUsage::Sampler => 1,
            TextureUsage::ColorTarget => 2,
        }
    }

    /// The value whose native encoding is `raw`, if any.
    pub open spec fn from_raw_spec(raw: u32) -> Option<TextureUsage> {
        match raw {
            0 => Some(TextureUsage::Invalid),
            32 => Some(TextureUsage::ComputeStorageWrite),
            16 => Some(TextureUsage::ComputeStorageRead),
            64 => Some(TextureUsage::ComputeSimultaneousReadWrite),
            4 => Some(TextureUsage::DepthStencilTarget),
            8 => Some(TextureUsage::GraphicsStorageRead),
            1 => Some(TextureUsage::Sampler),
            2 => Some(TextureUsage::ColorTarget),
            _ => None,
        }
    }

    /// The native integer encoding.
    pub fn raw(self) -> (r: u32)
        ensures
            r == self.raw_spec(),
    {
        match self {
            TextureUsage::Invalid => 0,
            TextureUsage::ComputeStorageWrite => 32,
            TextureUsage::ComputeStorageRead => 16,
            TextureUsage::ComputeSimultaneousReadWrite => 64,
            TextureUsage::DepthStencilTarget => 4,
            TextureUsage::GraphicsStorageRead => 8,
            TextureUsage::Sampler => 1,
            TextureUsage::ColorTarget => 2,
        }
    }

    /// The value whose native encoding is `raw`, if any.
    pub fn from_raw(raw: u32) -> (r: Option<TextureUsage>)
        ensures
            r == TextureUsage::from_raw_spec(raw),
    {
        match raw {
            0 => Some(TextureUsage::Invalid),
            32 => Some(TextureUsage::ComputeStorageWrite),
            16 => Some(TextureUsage::ComputeStorageRead),
            64 => Some(TextureUsage::ComputeSimultaneousReadWrite),
            4 => Some(TextureUsage::DepthStencilTarget),
            8 => Some(TextureUsage::GraphicsStorageRead),
            1 => Some(TextureUsage::Sampler),
            2 => Some(TextureUsage::ColorTarget),
            _ => None,
        }
    }

    /// Every value survives the trip through its native encoding.
    pub proof fn lemma_raw_round_trip(self)
        ensures
            TextureUsage::from_raw_spec(self.raw_spec()) == Some(self),
    {
    }
}

impl Default for TextureUsage {
    fn default() -> (r: Self)
        ensures
            r == TextureUsage::Invalid,
    {
        TextureUsage::Invalid
    }
}

/// The pipeline stage a shader runs in.
#[derive(Clone, Copy, Debug, PartialEq, Eq, Structural, PartialOrd, Ord, Hash)]
pub enum ShaderStage {
    Vertex,
    Fragment,
}

impl ShaderStage {
    /// The native integer encoding.
    pub open spec fn raw_spec(self) -> u32 {
        match self {
            ShaderStage::Vertex => 0,
            ShaderStage::Fragment => 1,
        }
    }

    /// The value whose native encoding is `raw`, if any.
    pub open spec fn from_raw_spec(raw: u32) -> Option<ShaderStage> {
        match raw {
            0 => Some(ShaderStage::Vertex),
            1 => Some(ShaderStage::Fragment),
            _ => None,
        }
    }

    /// The native integer encoding.
    pub fn raw(self) -> (r: u32)
        ensures
            r == self.raw_spec(),
    {
        match self {
            ShaderStage::Vertex => 0,
            ShaderStage::Fragment => 1,
        }
    }

    /// The value whose native encoding is `raw`, if any.
    pub fn from_raw(raw: u32) -> (r: Option<ShaderStage>)
        ensures
            r == ShaderStage::from_raw_spec(raw),
    {
        match raw {
            0 => Some(ShaderStage::Vertex),
            1 => Some(ShaderStage::Fragment),
            _ => None,
        }
    }

    /// Every value survives the trip through its native encoding.
    pub proof fn lemma_raw_round_trip(self)
        ensures
            ShaderStage::from_raw_spec(self.raw_spec()) == Some(self),
    {
    }
}

impl Default for ShaderStage {
    fn default() -> (r: Self)
        ensures
            r == ShaderStage::Vertex,
    {
        ShaderStage::Vertex
    }
}

/// How vertices are assembled into primitives.
#[derive(Clone, Copy, Debug, PartialEq, Eq, Structural, PartialOrd, Ord, Hash)]
pub enum PrimitiveType {
    TriangleList,
    TriangleStrip,
    LineList,
    LineStrip,
    PointList,
}

impl PrimitiveType {
    /// The native integer encoding.
    pub open spec fn raw_spec(self) -> u32 {
        match self {
            PrimitiveType::TriangleList => 0,
            PrimitiveType::TriangleStrip => 1,
            PrimitiveType::LineList => 2,
            PrimitiveType::LineStrip => 3,
            PrimitiveType::PointList => 4,
        }
    }

    /// The value whose native encoding is `raw`, if any.
    pub open spec fn from_raw_spec(raw: u32) -> Option<PrimitiveType> {
        match raw {
            0 => Some(PrimitiveType::TriangleList),
            1 => Some(PrimitiveType::TriangleStrip),
            2 => Some(PrimitiveType::LineList),
            3 => Some(PrimitiveType::LineStrip),
            4 => Some(PrimitiveType::PointList),
            _ => None,
        }
    }

    /// The native integer encoding.
    pub fn raw(self) -> (r: u32)
        ensures
            r == self.raw_spec(),
    {
        match self {
            PrimitiveType::TriangleList => 0,
            PrimitiveType::TriangleStrip => 1,
            PrimitiveType::LineList => 2,
            PrimitiveType::LineStrip => 3,
            PrimitiveType::PointList => 4,
        }
    }

    /// The value whose native encoding is `raw`, if any.
    pub fn from_raw(raw: u32) -> (r: Option<PrimitiveType>)
        ensures
            r == PrimitiveType::from_raw_spec(raw),
    {
        match raw {
            0 => Some(PrimitiveType::TriangleList),
            1 => Some(PrimitiveType::TriangleStrip),
            2 => Some(PrimitiveType::LineList),
            3 => Some(PrimitiveType::LineStrip),
            4 => Some(PrimitiveType::PointList),
            _ => None,
        }
    }

    /// Every value survives the trip through its native encoding.
    pub proof fn lemma_raw_round_trip(self)
        ensures
            PrimitiveType::from_raw_spec(self.raw_spec()) == Some(self),
    {
    }
}

impl Default for PrimitiveType {
    fn default() -> (r: Self)
        ensures
            r == PrimitiveType::TriangleList,
    {
        PrimitiveType::TriangleList
    }
}

/// Whether polygons are filled or drawn as lines.
#[derive(Clone, Copy, Debug, PartialEq, Eq, Structural, PartialOrd, Ord, Hash)]
pub enum FillMode {
    Fill,
    Line,
}

impl FillMode {
    /// The native integer encoding.
    pub open spec fn raw_spec(self) -> u32 {
        match self {
            FillMode::Fill => 0,
            FillMode::Line => 1,
        }
    }

    /// The value whose native encoding is `raw`, if any.
    pub open spec fn from_raw_spec(raw: u32) -> Option<FillMode> {
        match raw {
            0 => Some(FillMode::Fill),
            1 => Some(FillMode::Line),
            _ => None,
        }
    }

    /// The native integer encoding.
    pub fn raw(self) -> (r: u32)
        ensures
            r == self.raw_spec(),
    {
        match self {
            FillMode::Fill => 0,
            FillMode::Line => 1,
        }
    }

    /// The value whose native encoding is `raw`, if any.
    pub fn from_raw(raw: u32) -> (r: Option<FillMode>)
        ensures
            r == FillMode::from_raw_spec(raw),
    {
        match raw {
            0 => Some(FillMode::Fill),
            1 => Some(FillMode::Line),
            _ => None,
        }
    }

    /// Every value survives the trip through its native encoding.
    pub proof fn lemma_raw_round_trip(self)
        ensures
            FillMode::from_raw_spec(self.raw_spec()) == Some(self),
    {
    }
}

impl Default for FillMode {
    fn default() -> (r: Self)
        ensures
            r == FillMode::Fill,
    {
        FillMode::Fill
    }
}

/// Which facing of triangles is culled.
#[derive(Clone, Copy, Debug, PartialEq, Eq, Structural, PartialOrd, Ord, Hash)]
pub enum CullMode {
    NoCulling,
    Front,
    Back,
}

impl CullMode {
    /// The native integer encoding.
    pub open spec fn raw_spec(self) -> u32 {
        match self {
            CullMode::NoCulling => 0,
            CullMode::Front => 1,
            CullMode::Back => 2,
        }
    }

    /// The value whose native encoding is `raw`, if any.
    pub open spec fn from_raw_spec(raw: u32) -> Option<CullMode> {
        match raw {
            0 => Some(CullMode::NoCulling),
            1 => Some(CullMode::Front),
            2 => Some(CullMode::Back),
            _ => None,
        }
    }

    /// The native integer encoding.
    pub fn raw(self) -> (r: u32)
        ensures
            r == self.raw_spec(),
    {
        match self {
            CullMode::NoCulling => 0,
            CullMode::Front => 1,
            CullMode::Back => 2,
        }
    }

    /// The value whose native encoding is `raw`, if any.
    pub fn from_raw(raw: u32) -> (r: Option<CullMode>)
        ensures
            r == CullMode::from_raw_spec(raw),
    {
        match raw {
            0 => Some(CullMode::NoCulling),
            1 => Some(CullMode::Front),
            2 => Some(CullMode::Back),
            _ => None,
        }
    }

    /// Every value survives the trip through its native encoding.
    pub proof fn lemma_raw_round_trip(self)
        ensures
            CullMode::from_raw_spec(self.raw_spec()) == Some(self),
    {
    }
}

impl Default for CullMode {
    fn default() -> (r: Self)
        ensures
            r == CullMode::NoCulling,
    {
        CullMode::NoCulling
    }
}

/// The vertex winding that makes a triangle front-facing.
#[derive(Clone, Copy, Debug, PartialEq, Eq, Structural, PartialOrd, Ord, Hash)]
pub enum FrontFace {
    CounterClockwise,
    Clockwise,
}

impl FrontFace {
    /// The native integer encoding.
    pub open spec fn raw_spec(self) -> u32 {
        match self {
            FrontFace::CounterClockwise => 0,
            FrontFace::Clockwise => 1,
        }
    }

    /// The value whose native encoding is `raw`, if any.
    pub open spec fn from_raw_spec(raw: u32) -> Option<FrontFace> {
        match raw {
            0 => Some(FrontFace::CounterClockwise),
            1 => Some(FrontFace::Clockwise),
            _ => None,
        }
    }

    /// The native integer encoding.
    pub fn raw(self) -> (r: u32)
        ensures
            r == self.raw_spec(),
    {
        match self {
            FrontFace::CounterClockwise => 0,
            FrontFace::Clockwise => 1,
        }
    }

    /// The value whose native encoding is `raw`, if any.
    pub fn from_raw(raw: u32) -> (r: Option<FrontFace>)
        ensures
            r == FrontFace::from_raw_spec(raw),
    {
        match raw {
            0 => Some(FrontFace::CounterClockwise),
            1 => Some(FrontFace::Clockwise),
            _ => None,
        }
    }

    /// Every value survives the trip through its native encoding.
    pub proof fn lemma_raw_round_trip(self)
        ensures
            FrontFace::from_raw_spec(self.raw_spec()) == Some(self),
    {
    }
}

impl Default for FrontFace {
    fn default() -> (r: Self)
        ensures
            r == FrontFace::CounterClockwise,
    {
        FrontFace::CounterClockwise
    }
}

/// A comparison operator for depth, stencil and sampler tests.
#[derive(Clone, Copy, Debug, PartialEq, Eq, Structural, PartialOrd, Ord, Hash)]
pub enum CompareOp {
    Invalid,
    Never,
    Less,
    Equal,
    LessOrEqual,
    Greater,
    NotEqual,
    GreaterOrEqual,
    Always,
}

impl CompareOp {
    /// The native integer encoding.
    pub open spec fn raw_spec(self) -> u32 {
        match self {
            CompareOp::Invalid => 0,
            CompareOp::Never => 1,
            CompareOp::Less => 2,
            CompareOp::Equal => 3,
            CompareOp::LessOrEqual => 4,
            CompareOp::Greater => 5,
            CompareOp::NotEqual => 6,
            CompareOp::GreaterOrEqual => 7,
            CompareOp::Always => 8,
        }
    }

    /// The value whose native encoding is `raw`, if any.
    pub open spec fn from_raw_spec(raw: u32) -> Option<CompareOp> {
        match raw {
            0 => Some(CompareOp::Invalid),
            1 => Some(CompareOp::Never),
            2 => Some(CompareOp::Less),
            3 => Some(CompareOp::Equal),
            4 => Some(CompareOp::LessOrEqual),
            5 => Some(CompareOp::Greater),
            6 => Some(CompareOp::NotEqual),
            7 => Some(CompareOp::GreaterOrEqual),
            8 => Some(CompareOp::Always),
            _ => None,
        }
    }

    /// The native integer encoding.
    pub fn raw(self) -> (r: u32)
        ensures
            r == self.raw_spec(),
    {
        match self {
            CompareOp::Invalid => 0,
            CompareOp::Never => 1,
            CompareOp::Less => 2,
            CompareOp::Equal => 3,
            CompareOp::LessOrEqual => 4,
            CompareOp::Greater => 5,
            CompareOp::NotEqual => 6,
            CompareOp::GreaterOrEqual => 7,
            CompareOp::Always => 8,
        }
    }

    /// The value whose native encoding is `raw`, if any.
    pub fn from_raw(raw: u32) -> (r: Option<CompareOp>)
        ensures
            r == CompareOp::from_raw_spec(raw),
    {
        match raw {
            0 => Some(CompareOp::Invalid),
            1 => Some(CompareOp::Never),
            2 => Some(CompareOp::Less),
            3 => Some(CompareOp::Equal),
            4 => Some(CompareOp::LessOrEqual),
            5 => Some(CompareOp::Greater),
            6 => Some(CompareOp::NotEqual),
            7 => Some(CompareOp::GreaterOrEqual),
            8 => Some(CompareOp::Always),
            _ => None,
        }
    }

    /// Every value survives the trip through its native encoding.
    pub proof fn lemma_raw_round_trip(self)
        ensures
            CompareOp::from_raw_spec(self.raw_spec()) == Some(self),
    {
    }
}

impl Default for CompareOp {
    fn default() -> (r: Self)
        ensures
            r == CompareOp::Invalid,
    {
        CompareOp::Invalid
    }
}

/// An action performed on stencil values.
#[derive(Clone, Copy, Debug, PartialEq, Eq, Structural, PartialOrd, Ord, Hash)]
pub enum StencilOp {
    Invalid,
    Keep,
    Zero,
    Replace,
    IncrementAndClamp,
    DecrementAndClamp,
    Invert,
    IncrementAndWrap,
    DecrementAndWrap,
}

impl StencilOp {
    /// The native integer encoding.
    pub open spec fn raw_spec(self) -> u32 {
        match self {
            StencilOp::Invalid => 0,
            StencilOp::Keep => 1,
            StencilOp::Zero => 2,
            StencilOp::Replace => 3,
            StencilOp::IncrementAndClamp => 4,
            StencilOp::DecrementAndClamp => 5,
            StencilOp::Invert => 6,
            StencilOp::IncrementAndWrap => 7,
            StencilOp::DecrementAndWrap => 8,
        }
    }

    /// The value whose native encoding is `raw`, if any.
    pub open spec fn from_raw_spec(raw: u32) -> Option<StencilOp> {
        match raw {
            0 => Some(StencilOp::Invalid),
            1 => Some(StencilOp::Keep),
            2 => Some(StencilOp::Zero),
            3 => Some(StencilOp::Replace),
            4 => Some(StencilOp::IncrementAndClamp),
            5 => Some(StencilOp::DecrementAndClamp),
            6 => Some(StencilOp::Invert),
            7 => Some(StencilOp::IncrementAndWrap),
            8 => Some(StencilOp::DecrementAndWrap),
            _ => None,
        }
    }

    /// The native integer encoding.
    pub fn raw(self) -> (r: u32)
        ensures
            r == self.raw_spec(),
    {
        match self {
            StencilOp::Invalid => 0,
            StencilOp::Keep => 1,
            StencilOp::Zero => 2,
            StencilOp::Replace => 3,
            StencilOp::IncrementAndClamp => 4,
            StencilOp::DecrementAndClamp => 5,
            StencilOp::Invert => 6,
            StencilOp::IncrementAndWrap => 7,
            StencilOp::DecrementAndWrap => 8,
        }
    }

    /// The value whose native encoding is `raw`, if any.
    pub fn from_raw(raw: u32) -> (r: Option<StencilOp>)
        ensures
            r == StencilOp::from_raw_spec(raw),
    {
        match raw {
            0 => Some(StencilOp::Invalid),
            1 => Some(StencilOp::Keep),
            2 => Some(StencilOp::Zero),
            3 => Some(StencilOp::Replace),
            4 => Some(StencilOp::IncrementAndClamp),
            5 => Some(StencilOp::DecrementAndClamp),
            6 => Some(StencilOp::Invert),
            7 => Some(StencilOp::IncrementAndWrap),
            8 => Some(StencilOp::DecrementAndWrap),
            _ => None,
        }
    }

    /// Every value survives the trip through its native encoding.
    pub proof fn lemma_raw_round_trip(self)
        ensures
            StencilOp::from_raw_spec(self.raw_spec()) == Some(self),
    {
    }
}

impl Default for StencilOp {
    fn default() -> (r: Self)
        ensures
            r == StencilOp::Invalid,
    {
        StencilOp::Invalid
    }
}

/// The base dimensionality of a texture.
#[derive(Clone, Copy, Debug, PartialEq, Eq, Structural, PartialOrd, Ord, Hash)]
pub enum TextureType {
    _2D,
    _2DArray,
    _3D,
    Cube,
    CubeArray,
}

impl TextureType {
    /// The native integer encoding.
    pub open spec fn raw_spec(self) -> u32 {
        match self {
            TextureType::_2D => 0,
            TextureType::_2DArray => 1,
            TextureType::_3D => 2,
            TextureType::Cube => 3,
            TextureType::CubeArray => 4,
        }
    }

    /// The value whose native encoding is `raw`, if any.
    pub open spec fn from_raw_spec(raw: u32) -> Option<TextureType> {
        match raw {
            0 => Some(TextureType::_2D),
            1 => Some(TextureType::_2DArray),
            2 => Some(TextureType::_3D),
            3 => Some(TextureType::Cube),
            4 => Some(TextureType::CubeArray),
            _ => None,
        }
    }

    /// The native integer encoding.
    pub fn raw(self) -> (r: u32)
        ensures
            r == self.raw_spec(),
    {
        match self {
            TextureType::_2D => 0,
            TextureType::_2DArray => 1,
            TextureType::_3D => 2,
            TextureType::Cube => 3,
            TextureType::CubeArray => 4,
        }
    }

    /// The value whose native encoding is `raw`, if any.
    pub fn from_raw(raw: u32) -> (r: Option<TextureType>)
        ensures
            r == TextureType::from_raw_spec(raw),
    {
        match raw {
            0 => Some(TextureType::_2D),
            1 => Some(TextureType::_2DArray),
            2 => Some(TextureType::_3D),
            3 => Some(TextureType::Cube),
            4 => Some(TextureType::CubeArray),
            _ => None,
        }
    }

    /// Every value survives the trip through its native encoding.
    pub proof fn lemma_raw_round_trip(self)
        ensures
            TextureType::from_raw_spec(self.raw_spec()) == Some(self),
    {
    }
}

impl Default for TextureType {
    fn default() -> (r: Self)
        ensures
            r == TextureType::_2D,
    {
        TextureType::_2D
    }
}

/// The number of samples per texel.
#[derive(Clone, Copy, Debug, PartialEq, Eq, Structural, PartialOrd, Ord, Hash)]
pub enum SampleCount {
    NoMultiSampling,
    MSAA2x,
    MSAA4x,
    MSAA8x,
}

impl SampleCount {
    /// The native integer encoding.
    pub open spec fn raw_spec(self) -> u32 {
        match self {
            SampleCount::NoMultiSampling => 0,
            SampleCount::MSAA2x => 1,
            SampleCount::MSAA4x => 2,
            SampleCount::MSAA8x => 3,
        }
    }

    /// The value whose native encoding is `raw`, if any.
    pub open spec fn from_raw_spec(raw: u32) -> Option<SampleCount> {
        match raw {
            0 => Some(SampleCount::NoMultiSampling),
            1 => Some(SampleCount::MSAA2x),
            2 => Some(SampleCount::MSAA4x),
            3 => Some(SampleCount::MSAA8x),
            _ => None,
        }
    }

    /// The native integer encoding.
    pub fn raw(self) -> (r: u32)
        ensures
            r == self.raw_spec(),
    {
        match self {
            SampleCount::NoMultiSampling => 0,
            SampleCount::MSAA2x => 1,
            SampleCount::MSAA4x => 2,
            SampleCount::MSAA8x => 3,
        }
    }

    /// The value whose native encoding is `raw`, if any.
    pub fn from_raw(raw: u32) -> (r: Option<SampleCount>)
        ensures
            r == SampleCount::from_raw_spec(raw),
    {
        match raw {
            0 => Some(SampleCount::NoMultiSampling),
            1 => Some(SampleCount::MSAA2x),
            2 => Some(SampleCount::MSAA4x),
            3 => Some(SampleCount::MSAA8x),
            _ => None,
        }
    }

    /// Every value survives the trip through its native encoding.
    pub proof fn lemma_raw_round_trip(self)
        ensures
            SampleCount::from_raw_spec(self.raw_spec()) == Some(self),
    {
    }
}

impl Default for SampleCount {
    fn default() -> (r: Self)
        ensures
            r == SampleCount::NoMultiSampling,
    {
        SampleCount::NoMultiSampling
    }
}

/// The size and type of a vertex attribute.
#[derive(Clone, Copy, Debug, PartialEq, Eq, Structural, PartialOrd, Ord, Hash)]
pub enum VertexElementFormat {
    Invalid,
    Int,
    Int2,
    Int3,
    Int4,
    Uint,
    Uint2,
    Uint3,
    Uint4,
    Float,
    Float2,
    Float3,
    Float4,
    Byte2,
    Byte4,
    Ubyte2,
    Ubyte4,
    Byte2Norm,
    Byte4Norm,
    Ubyte2Norm,
    Ubyte4Norm,
    Short2,
    Short4,
    Ushort2,
    Ushort4,
    Short2Norm,
    Short4Norm,
    Ushort2Norm,
    Ushort4Norm,
    Half2,
    Half4,
}

impl VertexElementFormat {
    /// The native integer encoding.
    pub open spec fn raw_spec(self) -> u32 {
        match self {
            VertexElementFormat::Invalid => 0,
            VertexElementFormat::Int => 1,
            VertexElementFormat::Int2 => 2,
            VertexElementFormat::Int3 => 3,
            VertexElementFormat::Int4 => 4,
            VertexElementFormat::Uint => 5,
            VertexElementFormat::Uint2 => 6,
            VertexElementFormat::Uint3 => 7,
            VertexElementFormat::Uint4 => 8,
            VertexElementFormat::Float => 9,
            VertexElementFormat::Float2 => 10,
            VertexElementFormat::Float3 => 11,
            VertexElementFormat::Float4 => 12,
            VertexElementFormat::Byte2 => 13,
            VertexElementFormat::Byte4 => 14,
            VertexElementFormat::Ubyte2 => 15,
            VertexElementFormat::Ubyte4 => 16,
            VertexElementFormat::Byte2Norm => 17,
            VertexElementFormat::Byte4Norm => 18,
            VertexElementFormat::Ubyte2Norm => 19,
            VertexElementFormat::Ubyte4Norm => 20,
            VertexElementFormat::Short2 => 21,
            VertexElementFormat::Short4 => 22,
            VertexElementFormat::Ushort2 => 23,
            VertexElementFormat::Ushort4 => 24,
            VertexElementFormat::Short2Norm => 25,
            VertexElementFormat::Short4Norm => 26,
            VertexElementFormat::Ushort2Norm => 27,
            VertexElementFormat::Ushort4Norm => 28,
            VertexElementFormat::Half2 => 29,
            VertexElementFormat::Half4 => 30,
        }
    }

    /// The value whose native encoding is `raw`, if any.
    pub open spec fn from_raw_spec(raw: u32) -> Option<VertexElementFormat> {
        match raw {
            0 => Some(VertexElementFormat::Invalid),
            1 => Some(VertexElementFormat::Int),
            2 => Some(VertexElementFormat::Int2),
            3 => Some(VertexElementFormat::Int3),
            4 => Some(VertexElementFormat::Int4),
            5 => Some(VertexElementFormat::Uint),
            6 => Some(VertexElementFormat::Uint2),
            7 => Some(VertexElementFormat::Uint3),
            8 => Some(VertexElementFormat::Uint4),
            9 => Some(VertexElementFormat::Float),
            10 => Some(VertexElementFormat::Float2),
            11 => Some(VertexElementFormat::Float3),
            12 => Some(VertexElementFormat::Float4),
            13 => Some(VertexElementFormat::Byte2),
            14 => Some(VertexElementFormat::Byte4),
            15 => Some(VertexElementFormat::Ubyte2),
            16 => Some(VertexElementFormat::Ubyte4),
            17 => Some(VertexElementFormat::Byte2Norm),
            18 => Some(VertexElementFormat::Byte4Norm),
            19 => Some(VertexElementFormat::Ubyte2Norm),
            20 => Some(VertexElementFormat::Ubyte4Norm),
            21 => Some(VertexElementFormat::Short2),
            22 => Some(VertexElementFormat::Short4),
            23 => Some(VertexElementFormat::Ushort2),
            24 => Some(VertexElementFormat::Ushort4),
            25 => Some(VertexElementFormat::Short2Norm),
            26 => Some(VertexElementFormat::Short4Norm),
            27 => Some(VertexElementFormat::Ushort2Norm),
            28 => Some(VertexElementFormat::Ushort4Norm),
            29 => Some(VertexElementFormat::Half2),
            30 => Some(VertexElementFormat::Half4),
            _ => None,
        }
    }

    /// The native integer encoding.
    pub fn raw(self) -> (r: u32)
        ensures
            r == self.raw_spec(),
    {
        match self {
            VertexElementFormat::Invalid => 0,
            VertexElementFormat::Int => 1,
            VertexElementFormat::Int2 => 2,
            VertexElementFormat::Int3 => 3,
            VertexElementFormat::Int4 => 4,
            VertexElementFormat::Uint => 5,
            VertexElementFormat::Uint2 => 6,
            VertexElementFormat::Uint3 => 7,
            VertexElementFormat::Uint4 => 8,
            VertexElementFormat::Float => 9,
            VertexElementFormat::Float2 => 10,
            VertexElementFormat::Float3 => 11,
            VertexElementFormat::Float4 => 12,
            VertexElementFormat::Byte2 => 13,
            VertexElementFormat::Byte4 => 14,
            VertexElementFormat::Ubyte2 => 15,
            VertexElementFormat::Ubyte4 => 16,
            VertexElementFormat::Byte2Norm => 17,
            VertexElementFormat::Byte4Norm => 18,
            VertexElementFormat::Ubyte2Norm => 19,
            VertexElementFormat::Ubyte4Norm => 20,
            VertexElementFormat::Short2 => 21,
            VertexElementFormat::Short4 => 22,
            VertexElementFormat::Ushort2 => 23,
            VertexElementFormat::Ushort4 => 24,
            VertexElementFormat::Short2Norm => 25,
            VertexElementFormat::Short4Norm => 26,
            VertexElementFormat::Ushort2Norm => 27,
            VertexElementFormat::Ushort4Norm => 28,
            VertexElementFormat::Half2 => 29,
            VertexElementFormat::Half4 => 30,
        }
    }

    /// The value whose native encoding is `raw`, if any.
    pub fn from_raw(raw: u32) -> (r: Option<VertexElementFormat>)
        ensures
            r == VertexElementFormat::from_raw_spec(raw),
    {
        match raw {
            0 => Some(VertexElementFormat::Invalid),
            1 => Some(VertexElementFormat::Int),
            2 => Some(VertexElementFormat::Int2),
            3 => Some(VertexElementFormat::Int3),
            4 => Some(VertexElementFormat::Int4),
            5 => Some(VertexElementFormat::Uint),
            6 => Some(VertexElementFormat::Uint2),
            7 => Some(VertexElementFormat::Uint3),
            8 => Some(VertexElementFormat::Uint4),
            9 => Some(VertexElementFormat::Float),
            10 => Some(VertexElementFormat::Float2),
            11 => Some(VertexElementFormat::Float3),
            12 => Some(VertexElementFormat::Float4),
            13 => Some(VertexElementFormat::Byte2),
            14 => Some(VertexElementFormat::Byte4),
            15 => Some(VertexElementFormat::Ubyte2),
            16 => Some(VertexElementFormat::Ubyte4),
            17 => Some(VertexElementFormat::Byte2Norm),
            18 => Some(VertexElementFormat::Byte4Norm),
            19 => Some(VertexElementFormat::Ubyte2Norm),
            20 => Some(VertexElementFormat::Ubyte4Norm),
            21 => Some(VertexElementFormat::Short2),
            22 => Some(VertexElementFormat::Short4),
            23 => Some(VertexElementFormat::Ushort2),
            24 => Some(VertexElementFormat::Ushort4),
            25 => Some(VertexElementFormat::Short2Norm),
            26 => Some(VertexElementFormat::Short4Norm),
            27 => Some(VertexElementFormat::Ushort2Norm),
            28 => Some(VertexElementFormat::Ushort4Norm),
            29 => Some(VertexElementFormat::Half2),
            30 => Some(VertexElementFormat::Half4),
            _ => None,
        }
    }

    /// Every value survives the trip through its native encoding.
    pub proof fn lemma_raw_round_trip(self)
        ensures
            VertexElementFormat::from_raw_spec(self.raw_spec()) == Some(self),
    {
    }
}

impl Default for VertexElementFormat {
    fn default() -> (r: Self)
        ensures
            r == VertexElementFormat::Invalid,
    {
        VertexElementFormat::Invalid
    }
}

/// A texture filter for lookups.
#[derive(Clone, Copy, Debug, PartialEq, Eq, Structural, PartialOrd, Ord, Hash)]
pub enum Filter {
    Nearest,
    Linear,
}

impl Filter {
    /// The native integer encoding.
    pub open spec fn raw_spec(self) -> u32 {
        match self {
            Filter::Nearest => 0,
            Filter::Linear => 1,
        }
    }

    /// The value whose native encoding is `raw`, if any.
    pub open spec fn from_raw_spec(raw: u32) -> Option<Filter> {
        match raw {
            0 => Some(Filter::Nearest),
            1 => Some(Filter::Linear),
            _ => None,
        }
    }

    /// The native integer encoding.
    pub fn raw(self) -> (r: u32)
        ensures
            r == self.raw_spec(),
    {
        match self {
            Filter::Nearest => 0,
            Filter::Linear => 1,
        }
    }

    /// The value whose native encoding is `raw`, if any.
    pub fn from_raw(raw: u32) -> (r: Option<Filter>)
        ensures
            r == Filter::from_raw_spec(raw),
    {
        match raw {
            0 => Some(Filter::Nearest),
            1 => Some(Filter::Linear),
            _ => None,
        }
    }

    /// Every value survives the trip through its native encoding.
    pub proof fn lemma_raw_round_trip(self)
        ensures
            Filter::from_raw_spec(self.raw_spec()) == Some(self),
    {
    }
}

impl Default for Filter {
    fn default() -> (r: Self)
        ensures
            r == Filter::Nearest,
    {
        Filter::Nearest
    }
}

/// The mipmap filter for lookups.
#[derive(Clone, Copy, Debug, PartialEq, Eq, Structural, PartialOrd, Ord, Hash)]
pub enum SamplerMipmapMode {
    Nearest,
    Linear,
}

impl SamplerMipmapMode {
    /// The native integer encoding.
    pub open spec fn raw_spec(self) -> u32 {
        match self {
            SamplerMipmapMode::Nearest => 0,
            SamplerMipmapMode::Linear => 1,
        }
    }

    /// The value whose native encoding is `raw`, if any.
    pub open spec fn from_raw_spec(raw: u32) -> Option<SamplerMipmapMode> {
        match raw {
            0 => Some(SamplerMipmapMode::Nearest),
            1 => Some(SamplerMipmapMode::Linear),
            _ => None,
        }
    }

    /// The native integer encoding.
    pub fn raw(self) -> (r: u32)
        ensures
            r == self.raw_spec(),
    {
        match self {
            SamplerMipmapMode::Nearest => 0,
            SamplerMipmapMode::Linear => 1,
        }
    }

    /// The value whose native encoding is `raw`, if any.
    pub fn from_raw(raw: u32) -> (r: Option<SamplerMipmapMode>)
        ensures
            r == SamplerMipmapMode::from_raw_spec(raw),
    {
        match raw {
            0 => Some(SamplerMipmapMode::Nearest),
            1 => Some(SamplerMipmapMode::Linear),
            _ => None,
        }
    }

    /// Every value survives the trip through its native encoding.
    pub proof fn lemma_raw_round_trip(self)
        ensures
            SamplerMipmapMode::from_raw_spec(self.raw_spec()) == Some(self),
    {
    }
}

impl Default for SamplerMipmapMode {
    fn default() -> (r: Self)
        ensures
            r == SamplerMipmapMode::Nearest,
    {
        SamplerMipmapMode::Nearest
    }
}

/// The addressing mode for coordinates outside [0, 1).
#[derive(Clone, Copy, Debug, PartialEq, Eq, Structural, PartialOrd, Ord, Hash)]
pub enum SamplerAddressMode {
    Repeat,
    MirroredRepeat,
    ClampToEdge,
}

impl SamplerAddressMode {
    /// The native integer encoding.
    pub open spec fn raw_spec(self) -> u32 {
        match self {
            SamplerAddressMode::Repeat => 0,
            SamplerAddressMode::MirroredRepeat => 1,
            SamplerAddressMode::ClampToEdge => 2,
        }
    }

    /// The value whose native encoding is `raw`, if any.
    pub open spec fn from_raw_spec(raw: u32) -> Option<SamplerAddressMode> {
        match raw {
            0 => Some(SamplerAddressMode::Repeat),
            1 => Some(SamplerAddressMode::MirroredRepeat),
            2 => Some(SamplerAddressMode::ClampToEdge),
            _ => None,
        }
    }

    /// The native integer encoding.
    pub fn raw(self) -> (r: u32)
        ensures
            r == self.raw_spec(),
    {
        match self {
            SamplerAddressMode::Repeat => 0,
            SamplerAddressMode::MirroredRepeat => 1,
            SamplerAddressMode::ClampToEdge => 2,
        }
    }

    /// The value whose native encoding is `raw`, if any.
    pub fn from_raw(raw: u32) -> (r: Option<SamplerAddressMode>)
        ensures
            r == SamplerAddressMode::from_raw_spec(raw),
    {
        match raw {
            0 => Some(SamplerAddressMode::Repeat),
            1 => Some(SamplerAddressMode::MirroredRepeat),
            2 => Some(SamplerAddressMode::ClampToEdge),
            _ => None,
        }
    }

    /// Every value survives the trip through its native encoding.
    pub proof fn lemma_raw_round_trip(self)
        ensures
            SamplerAddressMode::from_raw_spec(self.raw_spec()) == Some(self),
    {
    }
}

impl Default for SamplerAddressMode {
    fn default() -> (r: Self)
        ensures
            r == SamplerAddressMode::Repeat,
    {
        SamplerAddressMode::Repeat
    }
}

/// The width of the elements of an index buffer.
#[derive(Clone, Copy, Debug, PartialEq, Eq, Structural, PartialOrd, Ord, Hash)]
pub enum IndexElementSize {
    _16Bit,
    _32Bit,
}

impl IndexElementSize {
    /// The native integer encoding.
    pub open spec fn raw_spec(self) -> u32 {
        match self {
            IndexElementSize::_16Bit => 0,
            IndexElementSize::_32Bit => 1,
        }
    }

    /// The value whose native encoding is `raw`, if any.
    pub open spec fn from_raw_spec(raw: u32) -> Option<IndexElementSize> {
        match raw {
            0 => Some(IndexElementSize::_16Bit),
            1 => Some(IndexElementSize::_32Bit),
            _ => None,
        }
    }

    /// The native integer encoding.
    pub fn raw(self) -> (r: u32)
        ensures
            r == self.raw_spec(),
    {
        match self {
            IndexElementSize::_16Bit => 0,
            IndexElementSize::_32Bit => 1,
        }
    }

    /// The value whose native encoding is `raw`, if any.
    pub fn from_raw(raw: u32) -> (r: Option<IndexElementSize>)
        ensures
            r == IndexElementSize::from_raw_spec(raw),
    {
        match raw {
            0 => Some(IndexElementSize::_16Bit),
            1 => Some(IndexElementSize::_32Bit),
            _ => None,
        }
    }

    /// Every value survives the trip through its native encoding.
    pub proof fn lemma_raw_round_trip(self)
        ensures
            IndexElementSize::from_raw_spec(self.raw_spec()) == Some(self),
    {
    }
}

impl Default for IndexElementSize {
    fn default() -> (r: Self)
        ensures
            r == IndexElementSize::_16Bit,
    {
        IndexElementSize::_16Bit
    }
}

/// Whether vertex data advances per vertex or per instance.
#[derive(Clone, Copy, Debug, PartialEq, Eq, Structural, PartialOrd, Ord, Hash)]
pub enum VertexInputRate {
    Vertex,
    Instance,
}

impl VertexInputRate {
    /// The native integer encoding.
    pub open spec fn raw_spec(self) -> u32 {
        match self {
            VertexInputRate::Vertex => 0,
            VertexInputRate::Instance => 1,
        }
    }

    /// The value whose native encoding is `raw`, if any.
    pub open spec fn from_raw_spec(raw: u32) -> Option<VertexInputRate> {
        match raw {
            0 => Some(VertexInputRate::Vertex),
            1 => Some(VertexInputRate::Instance),
            _ => None,
        }
    }

    /// The native integer encoding.
    pub fn raw(self) -> (r: u32)
        ensures
            r == self.raw_spec(),
    {
        match self {
            VertexInputRate::Vertex => 0,
            VertexInputRate::Instance => 1,
        }
    }

    /// The value whose native encoding is `raw`, if any.
    pub fn from_raw(raw: u32) -> (r: Option<VertexInputRate>)
        ensures
            r == VertexInputRate::from_raw_spec(raw),
    {
        match raw {
            0 => Some(VertexInputRate::Vertex),
            1 => Some(VertexInputRate::Instance),
            _ => None,
        }
    }

    /// Every value survives the trip through its native encoding.
    pub proof fn lemma_raw_round_trip(self)
        ensures
            VertexInputRate::from_raw_spec(self.raw_spec()) == Some(self),
    {
    }
}

impl Default for VertexInputRate {
    fn default() -> (r: Self)
        ensures
            r == VertexInputRate::Vertex,
    {
        VertexInputRate::Vertex
    }
}

/// How a buffer is intended to be used.
#[derive(Clone, Copy, Debug, PartialEq, Eq, Structural, PartialOrd, Ord, Hash)]
pub enum BufferUsageFlags {
    Vertex,
    Index,
}

impl BufferUsageFlags {
    /// The native integer encoding.
    pub open spec fn raw_spec(self) -> u32 {
        match self {
            BufferUsageFlags::Vertex => 1,
            BufferUsageFlags::Index => 2,
        }
    }

    /// The value whose native encoding is `raw`, if any.
    pub open spec fn from_raw_spec(raw: u32) -> Option<BufferUsageFlags> {
        match raw {
            1 => Some(BufferUsageFlags::Vertex),
            2 => Some(BufferUsageFlags::Index),
            _ => None,
        }
    }

    /// The native integer encoding.
    pub fn raw(self) -> (r: u32)
        ensures
            r == self.raw_spec(),
    {
        match self {
            BufferUsageFlags::Vertex => 1,
            BufferUsageFlags::Index => 2,
        }
    }

    /// The value whose native encoding is `raw`, if any.
    pub fn from_raw(raw: u32) -> (r: Option<BufferUsageFlags>)
        ensures
            r == BufferUsageFlags::from_raw_spec(raw),
    {
        match raw {
            1 => Some(BufferUsageFlags::Vertex),
            2 => Some(BufferUsageFlags::Index),
            _ => None,
        }
    }

    /// Every value survives the trip through its native encoding.
    pub proof fn lemma_raw_round_trip(self)
        ensures
            BufferUsageFlags::from_raw_spec(self.raw_spec()) == Some(self),
    {
    }
}

impl Default for BufferUsageFlags {
    fn default() -> (r: Self)
        ensures
            r == BufferUsageFlags::Vertex,
    {
        BufferUsageFlags::Vertex
    }
}

/// Whether a transfer buffer moves data to or from the device.
#[derive(Clone, Copy, Debug, PartialEq, Eq, Structural, PartialOrd, Ord, Hash)]
pub enum TransferBufferUsage {
    Upload,
    Download,
}

impl TransferBufferUsage {
    /// The native integer encoding.
    pub open spec fn raw_spec(self) -> u32 {
        match self {
            TransferBufferUsage::Upload => 0,
            TransferBufferUsage::Download => 1,
        }
    }

    /// The value whose native encoding is `raw`, if any.
    pub open spec fn from_raw_spec(raw: u32) -> Option<TransferBufferUsage> {
        match raw {
            0 => Some(TransferBufferUsage::Upload),
            1 => Some(TransferBufferUsage::Download),
            _ => None,
        }
    }

    /// The native integer encoding.
    pub fn raw(self) -> (r: u32)
        ensures
            r == self.raw_spec(),
    {
        match self {
            TransferBufferUsage::Upload => 0,
            TransferBufferUsage::Download => 1,
        }
    }

    /// The value whose native encoding is `raw`, if any.
    pub fn from_raw(raw: u32) -> (r: Option<TransferBufferUsage>)
        ensures
            r == TransferBufferUsage::from_raw_spec(raw),
    {
        match raw {
            0 => Some(TransferBufferUsage::Upload),
            1 => Some(TransferBufferUsage::Download),
            _ => None,
        }
    }

    /// Every value survives the trip through its native encoding.
    pub proof fn lemma_raw_round_trip(self)
        ensures
            TransferBufferUsage::from_raw_spec(self.raw_spec()) == Some(self),
    {
    }
}

impl Default for TransferBufferUsage {
    fn default() -> (r: Self)
        ensures
            r == TransferBufferUsage::Upload,
    {
        TransferBufferUsage::Upload
    }
}

/// A set of shader formats, held as the native bit mask.
#[derive(Clone, Copy, Debug, PartialEq, Eq, Structural)]
pub struct ShaderFormats {
    pub bits: u32,
}

impl ShaderFormats {
    /// Whether `format` is in the set.
    pub open spec fn has(self, format: ShaderFormat) -> bool {
        self.bits & format.raw_spec() != 0
    }

    /// The empty set.
    pub fn empty() -> (r: ShaderFormats)
        ensures
            r.bits == 0,
            forall|f: ShaderFormat| !r.has(f),
    {
        assert forall|f: ShaderFormat| !(ShaderFormats { bits: 0 }).has(f) by {
            let b = f.raw_spec();
            assert(0u32 & b == 0) by (bit_vector);
        }
        ShaderFormats { bits: 0 }
    }

    /// The set that holds `format` alone (empty for `Invalid`).
    pub fn of(format: ShaderFormat) -> (r: ShaderFormats)
        ensures
            r.bits == format.raw_spec(),
            format != ShaderFormat::Invalid ==> r.has(format),
    {
        let b = format.raw();
        assert(b != 0 ==> b & b != 0) by (bit_vector);
        ShaderFormats { bits: b }
    }

    /// The union of two sets.
    pub fn union(self, other: ShaderFormats) -> (r: ShaderFormats)
        ensures
            r.bits == self.bits | other.bits,
            forall|f: ShaderFormat| r.has(f) <==> self.has(f) || other.has(f),
    {
        let r = ShaderFormats { bits: self.bits | other.bits };
        assert forall|f: ShaderFormat| r.has(f) <==> self.has(f) || other.has(f) by {
            let x = self.bits;
            let y = other.bits;
            let b = f.raw_spec();
            assert((x | y) & b != 0 <==> (x & b != 0 || y & b != 0)) by (bit_vector);
        }
        r
    }

    /// Whether `format` is in the set.
    pub fn contains(self, format: ShaderFormat) -> (r: bool)
        ensures
            r == self.has(format),
    {
        self.bits & format.raw() != 0
    }
}

/// A set of texture usages, held as the native bit mask.
#[derive(Clone, Copy, Debug, PartialEq, Eq, Structural)]
pub struct TextureUsages {
    pub bits: u32,
}

impl TextureUsages {
    /// Whether `value` is in the set.
    pub open spec fn has(self, value: TextureUsage) -> bool {
        self.bits & value.raw_spec() != 0
    }

    /// The empty set.
    pub fn empty() -> (r: TextureUsages)
        ensures
            r.bits == 0,
            forall|f: TextureUsage| !r.has(f),
    {
        assert forall|f: TextureUsage| !(TextureUsages { bits: 0 }).has(f) by {
            let b = f.raw_spec();
            assert(0u32 & b == 0) by (bit_vector);
        }
        TextureUsages { bits: 0 }
    }

    /// The set that holds `value` alone (empty for `Invalid`).
    pub fn of(value: TextureUsage) -> (r: TextureUsages)
        ensures
            r.bits == value.raw_spec(),
            value.raw_spec() != 0 ==> r.has(value),
    {
        let b = value.raw();
        assert(b != 0 ==> b & b != 0) by (bit_vector);
        TextureUsages { bits: b }
    }

    /// The union of two sets.
    pub fn union(self, other: TextureUsages) -> (r: TextureUsages)
        ensures
            r.bits == self.bits | other.bits,
            forall|f: TextureUsage| r.has(f) <==> self.has(f) || other.has(f),
    {
        let r = TextureUsages { bits: self.bits | other.bits };
        assert forall|f: TextureUsage| r.has(f) <==> self.has(f) || other.has(f) by {
            let x = self.bits;
            let y = other.bits;
            let b = f.raw_spec();
            assert((x | y) & b != 0 <==> (x & b != 0 || y & b != 0)) by (bit_vector);
        }
        r
    }

    /// Whether `value` is in the set.
    pub fn contains(self, value: TextureUsage) -> (r: bool)
        ensures
            r == self.has(value),
    {
        self.bits & value.raw() != 0
    }
}

/// A set of buffer usages, held as the native bit mask.
#[derive(Clone, Copy, Debug, PartialEq, Eq, Structural)]
pub struct BufferUsages {
    pub bits: u32,
}

impl BufferUsages {
    /// Whether `value` is in the set.
    pub open spec fn has(self, value: BufferUsageFlags) -> bool {
        self.bits & value.raw_spec() != 0
    }

    /// The empty set.
    pub fn empty() -> (r: BufferUsages)
        ensures
            r.bits == 0,
            forall|f: BufferUsageFlags| !r.has(f),
    {
        assert forall|f: BufferUsageFlags| !(BufferUsages { bits: 0 }).has(f) by {
            let b = f.raw_spec();
            assert(0u32 & b == 0) by (bit_vector);
        }
        BufferUsages { bits: 0 }
    }

    /// The set that holds `value` alone.
    pub fn of(value: BufferUsageFlags) -> (r: BufferUsages)
        ensures
            r.bits == value.raw_spec(),
            value.raw_spec() != 0 ==> r.has(value),
    {
        let b = value.raw();
        assert(b != 0 ==> b & b != 0) by (bit_vector);
        BufferUsages { bits: b }
    }

    /// The union of two sets.
    pub fn union(self, other: BufferUsages) -> (r: BufferUsages)
        ensures
            r.bits == self.bits | other.bits,
            forall|f: BufferUsageFlags| r.has(f) <==> self.has(f) || other.has(f),
    {
        let r = BufferUsages { bits: self.bits | other.bits };
        assert forall|f: BufferUsageFlags| r.has(f) <==> self.has(f) || other.has(f) by {
            let x = self.bits;
            let y = other.bits;
            let b = f.raw_spec();
            assert((x | y) & b != 0 <==> (x & b != 0 || y & b != 0)) by (bit_vector);
        }
        r
    }

    /// Whether `value` is in the set.
    pub fn contains(self, value: BufferUsageFlags) -> (r: bool)
        ensures
            r == self.has(value),
    {
        self.bits & value.raw() != 0
    }
}

} // verus!
