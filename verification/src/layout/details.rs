//! The details block: the summary of the flight that the log starts or ends with.
use vstd::prelude::*;
use crate::wire::{le_bytes, le_signed32, le_signed64, lemma_le_32, lemma_le_64};

use crate::utils::{
    all_ascii, ascii_chars, nul_terminated_string, spec_nul_terminated_string, until_nul,
    as_i32, as_i64, dotted_version, fixed_string, format_dotted_version, le_u32, le_u64,
    read_u32_le, read_u64_le, slice_range, spec_fixed_string, to_i32, to_i64,
};

verus! {

/// The aircraft model that wrote the log.
#[derive(Debug, Clone, Copy, PartialEq, Eq, Structural)]
pub enum ProductType {
    NoProduct,
    Inspire1,
    Phantom3Standard,
    Phantom3Advanced,
    Phantom3Pro,
    OSMO,
    Matrice100,
    Phantom4,
    LB2,
    Inspire1Pro,
    A3,
    Matrice600,
    Phantom34K,
    MavicPro,
    ZenmuseXT,
    Inspire1RAW,
    A2,
    Inspire2,
    OSMOPro,
    OSMORaw,
    OSMOPlus,
    Mavic,
    OSMOMobile,
    OrangeCV600,
    Phantom4Pro,
    N3FC,
    Spark,
    Matrice600Pro,
    Phantom4Advanced,
    Phantom3SE,
    AG405,
    Matrice200,
    Matrice210,
    Matrice210RTK,
    MavicAir,
    Mavic2,
    Phantom4ProV2,
    Phantom4RTK,
    Phantom4Multispectral,
    Mavic2Enterprise,
    MavicMini,
    Matrice200V2,
    Matrice210V2,
    Matrice210RTKV2,
    MavicAir2,
    Matrice300RTK,
    FPV,
    MavicAir2S,
    Mini2,
    Mavic3,
    MiniSE,
    Mini3Pro,
    Mavic3Pro,
    Mini2SE,
    Matrice30,
    Mavic3Enterprise,
    Avata,
    Mini4Pro,
    Avata2,
    Matrice350RTK,
    Unknown(u8),
}

impl ProductType {
    /// The variant that the wire value `value` stands for.
    #[verifier::opaque]
    pub open spec fn spec_from_code(value: u8) -> ProductType {
        match value {
            0 => ProductType::NoProduct,
            1 => ProductType::Inspire1,
            2 => ProductType::Phantom3Standard,
            3 => ProductType::Phantom3Advanced,
            4 => ProductType::Phantom3Pro,
            5 => ProductType::OSMO,
            6 => ProductType::Matrice100,
            7 => ProductType::Phantom4,
            8 => ProductType::LB2,
            9 => ProductType::Inspire1Pro,
            10 => ProductType::A3,
            11 => ProductType::Matrice600,
            12 => ProductType::Phantom34K,
            13 => ProductType::MavicPro,
            14 => ProductType::ZenmuseXT,
            15 => ProductType::Inspire1RAW,
            16 => ProductType::A2,
            17 => ProductType::Inspire2,
            18 => ProductType::OSMOPro,
            19 => ProductType::OSMORaw,
            20 => ProductType::OSMOPlus,
            21 => ProductType::Mavic,
            22 => ProductType::OSMOMobile,
            23 => ProductType::OrangeCV600,
            24 => ProductType::Phantom4Pro,
            25 => ProductType::N3FC,
            26 => ProductType::Spark,
            27 => ProductType::Matrice600Pro,
            28 => ProductType::Phantom4Advanced,
            29 => ProductType::Phantom3SE,
            30 => ProductType::AG405,
            31 => ProductType::Matrice200,
            33 => ProductType::Matrice210,
            34 => ProductType::Matrice210RTK,
            38 => ProductType::MavicAir,
            42 => ProductType::Mavic2,
            44 => ProductType::Phantom4ProV2,
            46 => ProductType::Phantom4RTK,
            57 => ProductType::Phantom4Multispectral,
            58 => ProductType::Mavic2Enterprise,
            59 => ProductType::MavicMini,
            60 => ProductType::Matrice200V2,
            61 => ProductType::Matrice210V2,
            62 => ProductType::Matrice210RTKV2,
            67 => ProductType::MavicAir2,
            70 => ProductType::Matrice300RTK,
            73 => ProductType::FPV,
            75 => ProductType::MavicAir2S,
            76 => ProductType::Mini2,
            77 => ProductType::Mavic3,
            96 => ProductType::MiniSE,
            103 => ProductType::Mini3Pro,
            111 => ProductType::Mavic3Pro,
            113 => ProductType::Mini2SE,
            116 => ProductType::Matrice30,
            118 => ProductType::Mavic3Enterprise,
            121 => ProductType::Avata,
            126 => ProductType::Mini4Pro,
            152 => ProductType::Avata2,
            170 => ProductType::Matrice350RTK,
            _ => ProductType::Unknown(value),
        }
    }

    /// Maps a wire value to its variant.
    pub fn from_code(value: u8) -> (r: ProductType)
        ensures
            r == ProductType::spec_from_code(value),
    {
        reveal(ProductType::spec_from_code);
        match value {
            0 => ProductType::NoProduct,
            1 => ProductType::Inspire1,
            2 => ProductType::Phantom3Standard,
            3 => ProductType::Phantom3Advanced,
            4 => ProductType::Phantom3Pro,
            5 => ProductType::OSMO,
            6 => ProductType::Matrice100,
            7 => ProductType::Phantom4,
            8 => ProductType::LB2,
            9 => ProductType::Inspire1Pro,
            10 => ProductType::A3,
            11 => ProductType::Matrice600,
            12 => ProductType::Phantom34K,
            13 => ProductType::MavicPro,
            14 => ProductType::ZenmuseXT,
            15 => ProductType::Inspire1RAW,
            16 => ProductType::A2,
            17 => ProductType::Inspire2,
            18 => ProductType::OSMOPro,
            19 => ProductType::OSMORaw,
            20 => ProductType::OSMOPlus,
            21 => ProductType::Mavic,
            22 => ProductType::OSMOMobile,
            23 => ProductType::OrangeCV600,
            24 => ProductType::Phantom4Pro,
            25 => ProductType::N3FC,
            26 => ProductType::Spark,
            27 => ProductType::Matrice600Pro,
            28 => ProductType::Phantom4Advanced,
            29 => ProductType::Phantom3SE,
            30 => ProductType::AG405,
            31 => ProductType::Matrice200,
            33 => ProductType::Matrice210,
            34 => ProductType::Matrice210RTK,
            38 => ProductType::MavicAir,
            42 => ProductType::Mavic2,
            44 => ProductType::Phantom4ProV2,
            46 => ProductType::Phantom4RTK,
            57 => ProductType::Phantom4Multispectral,
            58 => ProductType::Mavic2Enterprise,
            59 => ProductType::MavicMini,
            60 => ProductType::Matrice200V2,
            61 => ProductType::Matrice210V2,
            62 => ProductType::Matrice210RTKV2,
            67 => ProductType::MavicAir2,
            70 => ProductType::Matrice300RTK,
            73 => ProductType::FPV,
            75 => ProductType::MavicAir2S,
            76 => ProductType::Mini2,
            77 => ProductType::Mavic3,
            96 => ProductType::MiniSE,
            103 => ProductType::Mini3Pro,
            111 => ProductType::Mavic3Pro,
            113 => ProductType::Mini2SE,
            116 => ProductType::Matrice30,
            118 => ProductType::Mavic3Enterprise,
            121 => ProductType::Avata,
            126 => ProductType::Mini4Pro,
            152 => ProductType::Avata2,
            170 => ProductType::Matrice350RTK,
            _ => ProductType::Unknown(value),
        }
    }
}

impl From<u8> for ProductType {
    fn from(value: u8) -> (r: ProductType)
        ensures
            r == ProductType::spec_from_code(value),
    {
        ProductType::from_code(value)
    }
}

impl vstd::std_specs::convert::FromSpecImpl<u8> for ProductType {
    open spec fn obeys_from_spec() -> bool {
        true
    }

    open spec fn from_spec(value: u8) -> ProductType {
        ProductType::spec_from_code(value)
    }
}

impl Default for ProductType {
    fn default() -> (r: ProductType)
        ensures
            r == ProductType::NoProduct,
    {
        ProductType::NoProduct
    }
}

impl ProductType {
    /// Number of cells in one battery of the model.
    pub open spec fn spec_battery_cell_num(self) -> u8 {
        match self {
            ProductType::Inspire1 => 6,
            ProductType::Phantom3Standard => 4,
            ProductType::Phantom3Advanced => 4,
            ProductType::Phantom3Pro => 4,
            ProductType::Matrice100 => 6,
            ProductType::Phantom4 => 4,
            ProductType::Inspire1Pro => 6,
            ProductType::Matrice600 => 6,
            ProductType::Phantom34K => 4,
            ProductType::MavicPro => 3,
            ProductType::Inspire1RAW => 6,
            ProductType::Inspire2 => 6,
            ProductType::Mavic => 3,
            ProductType::Phantom4Pro => 4,
            ProductType::Spark => 3,
            ProductType::Matrice600Pro => 6,
            ProductType::Phantom4Advanced => 4,
            ProductType::Phantom3SE => 4,
            ProductType::Matrice200 => 6,
            ProductType::Matrice210 => 6,
            ProductType::Matrice210RTK => 6,
            ProductType::MavicAir => 3,
            ProductType::Mavic2 => 4,
            ProductType::Phantom4ProV2 => 4,
            ProductType::Phantom4RTK => 4,
            ProductType::Phantom4Multispectral => 4,
            ProductType::Mavic2Enterprise => 4,
            ProductType::MavicMini => 2,
            ProductType::Matrice200V2 => 6,
            ProductType::Matrice210V2 => 6,
            ProductType::Matrice210RTKV2 => 6,
            ProductType::MavicAir2 => 3,
            ProductType::Matrice300RTK => 12,
            ProductType::FPV => 6,
            ProductType::MavicAir2S => 3,
            ProductType::Mini2 => 2,
            ProductType::Mavic3 => 4,
            ProductType::MiniSE => 2,
            ProductType::Mini3Pro => 2,
            ProductType::Mavic3Pro => 4,
            ProductType::Mini2SE => 2,
            ProductType::Matrice30 => 6,
            ProductType::Mavic3Enterprise => 4,
            ProductType::Avata => 5,
            ProductType::Mini4Pro => 2,
            ProductType::Avata2 => 4,
            ProductType::Matrice350RTK => 12,
            _ => 4,
        }
    }

    /// Number of cells in one battery of the model.
    pub fn battery_cell_num(&self) -> (r: u8)
        ensures
            r == self.spec_battery_cell_num(),
    {
        match self {
            ProductType::Inspire1 => 6,
            ProductType::Phantom3Standard => 4,
            ProductType::Phantom3Advanced => 4,
            ProductType::Phantom3Pro => 4,
            ProductType::Matrice100 => 6,
            ProductType::Phantom4 => 4,
            ProductType::Inspire1Pro => 6,
            ProductType::Matrice600 => 6,
            ProductType::Phantom34K => 4,
            ProductType::MavicPro => 3,
            ProductType::Inspire1RAW => 6,
            ProductType::Inspire2 => 6,
            ProductType::Mavic => 3,
            ProductType::Phantom4Pro => 4,
            ProductType::Spark => 3,
            ProductType::Matrice600Pro => 6,
            ProductType::Phantom4Advanced => 4,
            ProductType::Phantom3SE => 4,
            ProductType::Matrice200 => 6,
            ProductType::Matrice210 => 6,
            ProductType::Matrice210RTK => 6,
            ProductType::MavicAir => 3,
            ProductType::Mavic2 => 4,
            ProductType::Phantom4ProV2 => 4,
            ProductType::Phantom4RTK => 4,
            ProductType::Phantom4Multispectral => 4,
            ProductType::Mavic2Enterprise => 4,
            ProductType::MavicMini => 2,
            ProductType::Matrice200V2 => 6,
            ProductType::Matrice210V2 => 6,
            ProductType::Matrice210RTKV2 => 6,
            ProductType::MavicAir2 => 3,
            ProductType::Matrice300RTK => 12,
            ProductType::FPV => 6,
            ProductType::MavicAir2S => 3,
            ProductType::Mini2 => 2,
            ProductType::Mavic3 => 4,
            ProductType::MiniSE => 2,
            ProductType::Mini3Pro => 2,
            ProductType::Mavic3Pro => 4,
            ProductType::Mini2SE => 2,
            ProductType::Matrice30 => 6,
            ProductType::Mavic3Enterprise => 4,
            ProductType::Avata => 5,
            ProductType::Mini4Pro => 2,
            ProductType::Avata2 => 4,
            ProductType::Matrice350RTK => 12,
            _ => 4,
        }
    }

    /// Number of batteries the model flies with.
    pub open spec fn spec_battery_num(self) -> u8 {
        match self {
            ProductType::Inspire1 => 2,
            ProductType::Phantom3Standard => 1,
            ProductType::Phantom3Advanced => 1,
            ProductType::Phantom3Pro => 1,
            ProductType::Matrice100 => 2,
            ProductType::Phantom4 => 1,
            ProductType::Inspire1Pro => 2,
            ProductType::Matrice600 => 6,
            ProductType::Phantom34K => 1,
            ProductType::MavicPro => 1,
            ProductType::Inspire1RAW => 2,
            ProductType::Inspire2 => 2,
            ProductType::Mavic => 1,
            ProductType::Phantom4Pro => 1,
            ProductType::Spark => 1,
            ProductType::Matrice600Pro => 6,
            ProductType::Phantom4Advanced => 1,
            ProductType::Phantom3SE => 1,
            ProductType::Matrice200 => 2,
            ProductType::Matrice210 => 2,
            ProductType::Matrice210RTK => 2,
            ProductType::MavicAir => 1,
            ProductType::Mavic2 => 1,
            ProductType::Phantom4ProV2 => 1,
            ProductType::Phantom4RTK => 1,
            ProductType::Phantom4Multispectral => 1,
            ProductType::Mavic2Enterprise => 1,
            ProductType::MavicMini => 1,
            ProductType::Matrice200V2 => 2,
            ProductType::Matrice210V2 => 2,
            ProductType::Matrice210RTKV2 => 2,
            ProductType::MavicAir2 => 1,
            ProductType::Matrice300RTK => 2,
            ProductType::FPV => 1,
            ProductType::MavicAir2S => 1,
            ProductType::Mini2 => 1,
            ProductType::Mavic3 => 1,
            ProductType::MiniSE => 1,
            ProductType::Mini3Pro => 1,
            ProductType::Mavic3Pro => 1,
            ProductType::Mini2SE => 1,
            ProductType::Matrice30 => 2,
            ProductType::Mavic3Enterprise => 1,
            ProductType::Avata => 1,
            ProductType::Mini4Pro => 1,
            ProductType::Avata2 => 1,
            ProductType::Matrice350RTK => 2,
            _ => 1,
        }
    }

    /// Number of batteries the model flies with.
    pub fn battery_num(&self) -> (r: u8)
        ensures
            r == self.spec_battery_num(),
    {
        match self {
            ProductType::Inspire1 => 2,
            ProductType::Phantom3Standard => 1,
            ProductType::Phantom3Advanced => 1,
            ProductType::Phantom3Pro => 1,
            ProductType::Matrice100 => 2,
            ProductType::Phantom4 => 1,
            ProductType::Inspire1Pro => 2,
            ProductType::Matrice600 => 6,
            ProductType::Phantom34K => 1,
            ProductType::MavicPro => 1,
            ProductType::Inspire1RAW => 2,
            ProductType::Inspire2 => 2,
            ProductType::Mavic => 1,
            ProductType::Phantom4Pro => 1,
            ProductType::Spark => 1,
            ProductType::Matrice600Pro => 6,
            ProductType::Phantom4Advanced => 1,
            ProductType::Phantom3SE => 1,
            ProductType::Matrice200 => 2,
            ProductType::Matrice210 => 2,
            ProductType::Matrice210RTK => 2,
            ProductType::MavicAir => 1,
            ProductType::Mavic2 => 1,
            ProductType::Phantom4ProV2 => 1,
            ProductType::Phantom4RTK => 1,
            ProductType::Phantom4Multispectral => 1,
            ProductType::Mavic2Enterprise => 1,
            ProductType::MavicMini => 1,
            ProductType::Matrice200V2 => 2,
            ProductType::Matrice210V2 => 2,
            ProductType::Matrice210RTKV2 => 2,
            ProductType::MavicAir2 => 1,
            ProductType::Matrice300RTK => 2,
            ProductType::FPV => 1,
            ProductType::MavicAir2S => 1,
            ProductType::Mini2 => 1,
            ProductType::Mavic3 => 1,
            ProductType::MiniSE => 1,
            ProductType::Mini3Pro => 1,
            ProductType::Mavic3Pro => 1,
            ProductType::Mini2SE => 1,
            ProductType::Matrice30 => 2,
            ProductType::Mavic3Enterprise => 1,
            ProductType::Avata => 1,
            ProductType::Mini4Pro => 1,
            ProductType::Avata2 => 1,
            ProductType::Matrice350RTK => 2,
            _ => 1,
        }
    }
}

/// The product of each wire code of the details block: 0 none, 1 Inspire 1,
/// ..., 170 Matrice 350 RTK; any other code is an unknown product that keeps
/// its code.
pub proof fn lemma_product_type_codes(value: u8)
    ensures
        ProductType::spec_from_code(0) == ProductType::NoProduct,
        ProductType::spec_from_code(1) == ProductType::Inspire1,
        ProductType::spec_from_code(2) == ProductType::Phantom3Standard,
        ProductType::spec_from_code(3) == ProductType::Phantom3Advanced,
        ProductType::spec_from_code(4) == ProductType::Phantom3Pro,
        ProductType::spec_from_code(5) == ProductType::OSMO,
        ProductType::spec_from_code(6) == ProductType::Matrice100,
        ProductType::spec_from_code(7) == ProductType::Phantom4,
        ProductType::spec_from_code(8) == ProductType::LB2,
        ProductType::spec_from_code(9) == ProductType::Inspire1Pro,
        ProductType::spec_from_code(10) == ProductType::A3,
        ProductType::spec_from_code(11) == ProductType::Matrice600,
        ProductType::spec_from_code(12) == ProductType::Phantom34K,
        ProductType::spec_from_code(13) == ProductType::MavicPro,
        ProductType::spec_from_code(14) == ProductType::ZenmuseXT,
        ProductType::spec_from_code(15) == ProductType::Inspire1RAW,
        ProductType::spec_from_code(16) == ProductType::A2,
        ProductType::spec_from_code(17) == ProductType::Inspire2,
        ProductType::spec_from_code(18) == ProductType::OSMOPro,
        ProductType::spec_from_code(19) == ProductType::OSMORaw,
        ProductType::spec_from_code(20) == ProductType::OSMOPlus,
        ProductType::spec_from_code(21) == ProductType::Mavic,
        ProductType::spec_from_code(22) == ProductType::OSMOMobile,
        ProductType::spec_from_code(23) == ProductType::OrangeCV600,
        ProductType::spec_from_code(24) == ProductType::Phantom4Pro,
        ProductType::spec_from_code(25) == ProductType::N3FC,
        ProductType::spec_from_code(26) == ProductType::Spark,
        ProductType::spec_from_code(27) == ProductType::Matrice600Pro,
        ProductType::spec_from_code(28) == ProductType::Phantom4Advanced,
        ProductType::spec_from_code(29) == ProductType::Phantom3SE,
        ProductType::spec_from_code(30) == ProductType::AG405,
        ProductType::spec_from_code(31) == ProductType::Matrice200,
        ProductType::spec_from_code(33) == ProductType::Matrice210,
        ProductType::spec_from_code(34) == ProductType::Matrice210RTK,
        ProductType::spec_from_code(38) == ProductType::MavicAir,
        ProductType::spec_from_code(42) == ProductType::Mavic2,
        ProductType::spec_from_code(44) == ProductType::Phantom4ProV2,
        ProductType::spec_from_code(46) == ProductType::Phantom4RTK,
        ProductType::spec_from_code(57) == ProductType::Phantom4Multispectral,
        ProductType::spec_from_code(58) == ProductType::Mavic2Enterprise,
        ProductType::spec_from_code(59) == ProductType::MavicMini,
        ProductType::spec_from_code(60) == ProductType::Matrice200V2,
        ProductType::spec_from_code(61) == ProductType::Matrice210V2,
        ProductType::spec_from_code(62) == ProductType::Matrice210RTKV2,
        ProductType::spec_from_code(67) == ProductType::MavicAir2,
        ProductType::spec_from_code(70) == ProductType::Matrice300RTK,
        ProductType::spec_from_code(73) == ProductType::FPV,
        ProductType::spec_from_code(75) == ProductType::MavicAir2S,
        ProductType::spec_from_code(76) == ProductType::Mini2,
        ProductType::spec_from_code(77) == ProductType::Mavic3,
        ProductType::spec_from_code(96) == ProductType::MiniSE,
        ProductType::spec_from_code(103) == ProductType::Mini3Pro,
        ProductType::spec_from_code(111) == ProductType::Mavic3Pro,
        ProductType::spec_from_code(113) == ProductType::Mini2SE,
        ProductType::spec_from_code(116) == ProductType::Matrice30,
        ProductType::spec_from_code(118) == ProductType::Mavic3Enterprise,
        ProductType::spec_from_code(121) == ProductType::Avata,
        ProductType::spec_from_code(126) == ProductType::Mini4Pro,
        ProductType::spec_from_code(152) == ProductType::Avata2,
        ProductType::spec_from_code(170) == ProductType::Matrice350RTK,
        !(value == 0 || value == 1 || value == 2 || value == 3 || value == 4 || value == 5 || value == 6 || value == 7 || value == 8 || value == 9 || value == 10 || value == 11 || value == 12 || value == 13 || value == 14 || value == 15 || value == 16 || value == 17 || value == 18 || value == 19 || value == 20 || value == 21 || value == 22 || value == 23 || value == 24 || value == 25 || value == 26 || value == 27 || value == 28 || value == 29 || value == 30 || value == 31 || value == 33 || value == 34 || value == 38 || value == 42 || value == 44 || value == 46 || value == 57 || value == 58 || value == 59 || value == 60 || value == 61 || value == 62 || value == 67 || value == 70 || value == 73 || value == 75 || value == 76 || value == 77 || value == 96 || value == 103 || value == 111 || value == 113 || value == 116 || value == 118 || value == 121 || value == 126 || value == 152 || value == 170) ==> ProductType::spec_from_code(value) == ProductType::Unknown(value),
{
    reveal(ProductType::spec_from_code);
}

/// The number of cells of the battery of each product; 4 for any other.
pub proof fn lemma_product_battery_cells(p: ProductType)
    ensures
        ProductType::Inspire1.spec_battery_cell_num() == 6,
        ProductType::Phantom3Standard.spec_battery_cell_num() == 4,
        ProductType::Phantom3Advanced.spec_battery_cell_num() == 4,
        ProductType::Phantom3Pro.spec_battery_cell_num() == 4,
        ProductType::Matrice100.spec_battery_cell_num() == 6,
        ProductType::Phantom4.spec_battery_cell_num() == 4,
        ProductType::Inspire1Pro.spec_battery_cell_num() == 6,
        ProductType::Matrice600.spec_battery_cell_num() == 6,
        ProductType::Phantom34K.spec_battery_cell_num() == 4,
        ProductType::MavicPro.spec_battery_cell_num() == 3,
        ProductType::Inspire1RAW.spec_battery_cell_num() == 6,
        ProductType::Inspire2.spec_battery_cell_num() == 6,
        ProductType::Mavic.spec_battery_cell_num() == 3,
        ProductType::Phantom4Pro.spec_battery_cell_num() == 4,
        ProductType::Spark.spec_battery_cell_num() == 3,
        ProductType::Matrice600Pro.spec_battery_cell_num() == 6,
        ProductType::Phantom4Advanced.spec_battery_cell_num() == 4,
        ProductType::Phantom3SE.spec_battery_cell_num() == 4,
        ProductType::Matrice200.spec_battery_cell_num() == 6,
        ProductType::Matrice210.spec_battery_cell_num() == 6,
        ProductType::Matrice210RTK.spec_battery_cell_num() == 6,
        ProductType::MavicAir.spec_battery_cell_num() == 3,
        ProductType::Mavic2.spec_battery_cell_num() == 4,
        ProductType::Phantom4ProV2.spec_battery_cell_num() == 4,
        ProductType::Phantom4RTK.spec_battery_cell_num() == 4,
        ProductType::Phantom4Multispectral.spec_battery_cell_num() == 4,
        ProductType::Mavic2Enterprise.spec_battery_cell_num() == 4,
        ProductType::MavicMini.spec_battery_cell_num() == 2,
        ProductType::Matrice200V2.spec_battery_cell_num() == 6,
        ProductType::Matrice210V2.spec_battery_cell_num() == 6,
        ProductType::Matrice210RTKV2.spec_battery_cell_num() == 6,
        ProductType::MavicAir2.spec_battery_cell_num() == 3,
        ProductType::Matrice300RTK.spec_battery_cell_num() == 12,
        ProductType::FPV.spec_battery_cell_num() == 6,
        ProductType::MavicAir2S.spec_battery_cell_num() == 3,
        ProductType::Mini2.spec_battery_cell_num() == 2,
        ProductType::Mavic3.spec_battery_cell_num() == 4,
        ProductType::MiniSE.spec_battery_cell_num() == 2,
        ProductType::Mini3Pro.spec_battery_cell_num() == 2,
        ProductType::Mavic3Pro.spec_battery_cell_num() == 4,
        ProductType::Mini2SE.spec_battery_cell_num() == 2,
        ProductType::Matrice30.spec_battery_cell_num() == 6,
        ProductType::Mavic3Enterprise.spec_battery_cell_num() == 4,
        ProductType::Avata.spec_battery_cell_num() == 5,
        ProductType::Mini4Pro.spec_battery_cell_num() == 2,
        ProductType::Avata2.spec_battery_cell_num() == 4,
        ProductType::Matrice350RTK.spec_battery_cell_num() == 12,
        ProductType::NoProduct.spec_battery_cell_num() == 4,
        ProductType::A3.spec_battery_cell_num() == 4,
        ProductType::OSMOMobile.spec_battery_cell_num() == 4,
        ProductType::ZenmuseXT.spec_battery_cell_num() == 4,
        ProductType::OSMOPlus.spec_battery_cell_num() == 4,
        ProductType::LB2.spec_battery_cell_num() == 4,
        ProductType::N3FC.spec_battery_cell_num() == 4,
        ProductType::OSMORaw.spec_battery_cell_num() == 4,
        ProductType::OSMOPro.spec_battery_cell_num() == 4,
        ProductType::OSMO.spec_battery_cell_num() == 4,
        ProductType::OrangeCV600.spec_battery_cell_num() == 4,
        ProductType::A2.spec_battery_cell_num() == 4,
        ProductType::AG405.spec_battery_cell_num() == 4,
        p is Unknown ==> p.spec_battery_cell_num() == 4,
{
}

/// The number of batteries of each product; 1 for any other.
pub proof fn lemma_product_battery_counts(p: ProductType)
    ensures
        ProductType::Inspire1.spec_battery_num() == 2,
        ProductType::Phantom3Standard.spec_battery_num() == 1,
        ProductType::Phantom3Advanced.spec_battery_num() == 1,
        ProductType::Phantom3Pro.spec_battery_num() == 1,
        ProductType::Matrice100.spec_battery_num() == 2,
        ProductType::Phantom4.spec_battery_num() == 1,
        ProductType::Inspire1Pro.spec_battery_num() == 2,
        ProductType::Matrice600.spec_battery_num() == 6,
        ProductType::Phantom34K.spec_battery_num() == 1,
        ProductType::MavicPro.spec_battery_num() == 1,
        ProductType::Inspire1RAW.spec_battery_num() == 2,
        ProductType::Inspire2.spec_battery_num() == 2,
        ProductType::Mavic.spec_battery_num() == 1,
        ProductType::Phantom4Pro.spec_battery_num() == 1,
        ProductType::Spark.spec_battery_num() == 1,
        ProductType::Matrice600Pro.spec_battery_num() == 6,
        ProductType::Phantom4Advanced.spec_battery_num() == 1,
        ProductType::Phantom3SE.spec_battery_num() == 1,
        ProductType::Matrice200.spec_battery_num() == 2,
        ProductType::Matrice210.spec_battery_num() == 2,
        ProductType::Matrice210RTK.spec_battery_num() == 2,
        ProductType::MavicAir.spec_battery_num() == 1,
        ProductType::Mavic2.spec_battery_num() == 1,
        ProductType::Phantom4ProV2.spec_battery_num() == 1,
        ProductType::Phantom4RTK.spec_battery_num() == 1,
        ProductType::Phantom4Multispectral.spec_battery_num() == 1,
        ProductType::Mavic2Enterprise.spec_battery_num() == 1,
        ProductType::MavicMini.spec_battery_num() == 1,
        ProductType::Matrice200V2.spec_battery_num() == 2,
        ProductType::Matrice210V2.spec_battery_num() == 2,
        ProductType::Matrice210RTKV2.spec_battery_num() == 2,
        ProductType::MavicAir2.spec_battery_num() == 1,
        ProductType::Matrice300RTK.spec_battery_num() == 2,
        ProductType::FPV.spec_battery_num() == 1,
        ProductType::MavicAir2S.spec_battery_num() == 1,
        ProductType::Mini2.spec_battery_num() == 1,
        ProductType::Mavic3.spec_battery_num() == 1,
        ProductType::MiniSE.spec_battery_num() == 1,
        ProductType::Mini3Pro.spec_battery_num() == 1,
        ProductType::Mavic3Pro.spec_battery_num() == 1,
        ProductType::Mini2SE.spec_battery_num() == 1,
        ProductType::Matrice30.spec_battery_num() == 2,
        ProductType::Mavic3Enterprise.spec_battery_num() == 1,
        ProductType::Avata.spec_battery_num() == 1,
        ProductType::Mini4Pro.spec_battery_num() == 1,
        ProductType::Avata2.spec_battery_num() == 1,
        ProductType::Matrice350RTK.spec_battery_num() == 2,
        ProductType::NoProduct.spec_battery_num() == 1,
        ProductType::A3.spec_battery_num() == 1,
        ProductType::OSMOMobile.spec_battery_num() == 1,
        ProductType::ZenmuseXT.spec_battery_num() == 1,
        ProductType::OSMOPlus.spec_battery_num() == 1,
        ProductType::LB2.spec_battery_num() == 1,
        ProductType::N3FC.spec_battery_num() == 1,
        ProductType::OSMORaw.spec_battery_num() == 1,
        ProductType::OSMOPro.spec_battery_num() == 1,
        ProductType::OSMO.spec_battery_num() == 1,
        ProductType::OrangeCV600.spec_battery_num() == 1,
        ProductType::A2.spec_battery_num() == 1,
        ProductType::AG405.spec_battery_num() == 1,
        p is Unknown ==> p.spec_battery_num() == 1,
{
}

/// The platform of the app that wrote the log.
#[derive(Debug, Clone, Copy, PartialEq, Eq, Structural)]
pub enum Platform {
    IOS,
    Android,
    DJIFly,
    Windows,
    Mac,
    Linux,
    Unknown(u8),
}

impl Platform {
    /// The variant that the wire value `value` stands for.
    pub open spec fn spec_from_code(value: u8) -> Platform {
        match value {
            1 => Platform::IOS,
            2 => Platform::Android,
            6 => Platform::DJIFly,
            10 => Platform::Windows,
            11 => Platform::Mac,
            12 => Platform::Linux,
            _ => Platform::Unknown(value),
        }
    }

    /// Maps a wire value to its variant.
    pub fn from_code(value: u8) -> (r: Platform)
        ensures
            r == Platform::spec_from_code(value),
    {
        match value {
            1 => Platform::IOS,
            2 => Platform::Android,
            6 => Platform::DJIFly,
            10 => Platform::Windows,
            11 => Platform::Mac,
            12 => Platform::Linux,
            _ => Platform::Unknown(value),
        }
    }
}

impl From<u8> for Platform {
    fn from(value: u8) -> (r: Platform)
        ensures
            r == Platform::spec_from_code(value),
    {
        Platform::from_code(value)
    }
}

impl vstd::std_specs::convert::FromSpecImpl<u8> for Platform {
    open spec fn obeys_from_spec() -> bool {
        true
    }

    open spec fn from_spec(value: u8) -> Platform {
        Platform::spec_from_code(value)
    }
}

/// The app platform of each wire code: 1 iOS, 2 Android, 6 DJI Fly,
/// 10 Windows, 11 Mac, 12 Linux; any other code is an unknown platform that
/// keeps its code.
pub proof fn lemma_platform_codes(value: u8)
    ensures
        Platform::spec_from_code(1) == Platform::IOS,
        Platform::spec_from_code(2) == Platform::Android,
        Platform::spec_from_code(6) == Platform::DJIFly,
        Platform::spec_from_code(10) == Platform::Windows,
        Platform::spec_from_code(11) == Platform::Mac,
        Platform::spec_from_code(12) == Platform::Linux,
        !(value == 1 || value == 2 || value == 6 || value == 10 || value == 11 || value == 12)
            ==> Platform::spec_from_code(value) == Platform::Unknown(value),
{
}


/// The models whose battery serial number is stored as reversed BCD digits.
pub open spec fn is_bcd_serial_product(product_type: ProductType) -> bool {
    product_type == ProductType::Inspire1 || product_type == ProductType::Inspire1Pro
        || product_type == ProductType::Inspire1RAW
}

/// The character of the low nibble of `b` read as a digit: `'0' + (b & 0xF)`.
pub open spec fn bcd_char(b: u8) -> char {
    ((b % 16) + 48) as char
}

/// `s` without its leading `'0'` characters.
pub open spec fn skip_leading_zeros(s: Seq<char>) -> Seq<char>
    decreases s.len(),
{
    if s.len() > 0 && s[0] == '0' {
        skip_leading_zeros(s.drop_first())
    } else {
        s
    }
}

/// The digits of `buf`, last byte first.
pub open spec fn reversed_bcd_digits(buf: Seq<u8>) -> Seq<char> {
    Seq::new(buf.len(), |i: int| bcd_char(buf[buf.len() - 1 - i]))
}

/// A battery serial stored as reversed BCD: the low nibble of each byte as
/// a digit, last byte first, without leading zeros.
pub open spec fn spec_decode_reversed_bcd(buf: Seq<u8>) -> Seq<char> {
    skip_leading_zeros(reversed_bcd_digits(buf))
}

/// The battery serial number held by `buf` for a given model: reversed BCD
/// digits for the Inspire 1 family, otherwise a NUL-terminated UTF-8 text.
pub open spec fn spec_battery_sn(product_type: ProductType, buf: Seq<u8>) -> Seq<char> {
    if is_bcd_serial_product(product_type) {
        spec_decode_reversed_bcd(buf)
    } else {
        spec_nul_terminated_string(buf)
    }
}

/// Leading zeros skipped: what is left is the end of `s`, everything cut
/// off is a `'0'`, and what is left does not start with one.
pub proof fn lemma_skip_leading_zeros_suffix(s: Seq<char>)
    ensures
        skip_leading_zeros(s).len() <= s.len(),
        skip_leading_zeros(s) == s.subrange(s.len() - skip_leading_zeros(s).len(), s.len() as int),
        forall|i: int| 0 <= i < s.len() - skip_leading_zeros(s).len() ==> #[trigger] s[i] == '0',
        skip_leading_zeros(s).len() > 0 ==> skip_leading_zeros(s)[0] != '0',
    decreases s.len(),
{
    if s.len() > 0 && s[0] == '0' {
        lemma_skip_leading_zeros_suffix(s.drop_first());
        let t = s.drop_first();
        assert(t.subrange(t.len() - skip_leading_zeros(t).len(), t.len() as int) =~= s.subrange(
            s.len() - skip_leading_zeros(s).len(),
            s.len() as int,
        ));
        assert forall|i: int| 0 <= i < s.len() - skip_leading_zeros(s).len() implies #[trigger] s[i]
            == '0' by {
            if i > 0 {
                assert(s[i] == t[i - 1]);
            }
        }
    } else {
        assert(s.subrange(0, s.len() as int) =~= s);
    }
}

/// The battery serial of the Inspire 1, Inspire 1 Pro and Inspire 1 RAW is
/// stored as reversed BCD: its characters are `'0'` plus the low nibble of
/// each byte, last byte first, with the leading `'0'` characters dropped;
/// every other product stores it as NUL-terminated text.
pub proof fn lemma_battery_serial_encoding(product_type: ProductType, buf: Seq<u8>)
    ensures
        (product_type == ProductType::Inspire1 || product_type == ProductType::Inspire1Pro
            || product_type == ProductType::Inspire1RAW) ==> {
            let r = spec_battery_sn(product_type, buf);
            let k = buf.len() - r.len();
            &&& 0 <= k <= buf.len()
            &&& forall|i: int| 0 <= i < r.len() ==> #[trigger] r[i] as int == 48 + buf[buf.len() - 1 - k - i] % 16
            &&& forall|i: int| 0 <= i < k ==> #[trigger] buf[buf.len() - 1 - i] % 16 == 0
            &&& r.len() > 0 ==> r[0] != '0'
        },
        !(product_type == ProductType::Inspire1 || product_type == ProductType::Inspire1Pro
            || product_type == ProductType::Inspire1RAW) ==> spec_battery_sn(product_type, buf)
            == spec_nul_terminated_string(buf),
{
    let d = reversed_bcd_digits(buf);
    lemma_skip_leading_zeros_suffix(d);
    let r = skip_leading_zeros(d);
    let k = d.len() - r.len();
    assert forall|i: int| 0 <= i < r.len() implies #[trigger] r[i] as int == 48 + buf[buf.len() - 1
        - k - i] % 16 by {
        assert(r[i] == d[k + i]);
    }
    assert forall|i: int| 0 <= i < k implies #[trigger] buf[buf.len() - 1 - i] % 16 == 0 by {
        assert(d[i] == '0');
        assert(d[i] == bcd_char(buf[buf.len() - 1 - i]));
    }
}

proof fn lemma_skip_leading_zeros_push(s: Seq<char>, c: char)
    ensures
        skip_leading_zeros(s.push(c)) == if skip_leading_zeros(s).len() == 0 && c == '0' {
            Seq::<char>::empty()
        } else {
            skip_leading_zeros(s).push(c)
        },
    decreases s.len(),
{
    if s.len() == 0 {
        assert(s.push(c) == seq![c]);
        assert(seq![c].drop_first() =~= Seq::<char>::empty());
        assert(skip_leading_zeros(Seq::<char>::empty()) == Seq::<char>::empty());
        assert(skip_leading_zeros(s) == Seq::<char>::empty());
        if c == '0' {
            assert(skip_leading_zeros(seq![c]) == skip_leading_zeros(Seq::<char>::empty()));
        } else {
            assert(skip_leading_zeros(seq![c]) == seq![c]);
            assert(Seq::<char>::empty().push(c) == seq![c]);
        }
    } else if s[0] == '0' {
        assert(s.push(c).drop_first() == s.drop_first().push(c));
        lemma_skip_leading_zeros_push(s.drop_first(), c);
    } else {
        assert(s.push(c)[0] == s[0]);
    }
}

/// Decodes a battery serial number stored as reversed BCD digits.
fn decode_reversed_bcd_battery_sn(buf: Vec<u8>) -> (r: String)
    ensures
        r@ == spec_decode_reversed_bcd(buf@),
{
    let mut out = String::new();
    let mut k: usize = 0;
    let n = buf.len();
    while k < n
        invariant
            n == buf@.len(),
            k <= n,
            out@ == skip_leading_zeros(reversed_bcd_digits(buf@).take(k as int)),
        decreases n - k,
    {
        let b = buf[n - 1 - k];
        let c = ((b % 16) + 48) as char;
        proof {
            let d = reversed_bcd_digits(buf@);
            assert(d.take(k + 1) == d.take(k as int).push(c));
            lemma_skip_leading_zeros_push(d.take(k as int), c);
        }
        if !(out.as_str().is_empty() && c == '0') {
            crate::utils::push_char(&mut out, c);
        }
        k = k + 1;
    }
    assert(reversed_bcd_digits(buf@).take(n as int) == reversed_bcd_digits(buf@));
    out
}

/// Decodes the battery serial number of a model: reversed BCD digits for
/// the Inspire 1 family, otherwise a NUL-terminated UTF-8 text.
pub fn parse_battery_sn(product_type: ProductType, buf: Vec<u8>) -> (r: String)
    ensures
        r@ == spec_battery_sn(product_type, buf@),
        !is_bcd_serial_product(product_type) && all_ascii(until_nul(buf@)) ==> r@ == ascii_chars(
            until_nul(buf@),
        ),
{
    if product_type == ProductType::Inspire1 || product_type == ProductType::Inspire1Pro
        || product_type == ProductType::Inspire1RAW {
        decode_reversed_bcd_battery_sn(buf)
    } else {
        nul_terminated_string(buf.as_slice())
    }
}


/// The summary of a flight.
///
/// Text fields are NUL-padded in the log and are given without their
/// padding. Floating-point fields are kept as the bits of their IEEE-754
/// value, as the log stores them.
#[derive(Debug, Clone)]
pub struct Details {
    pub sub_street: String,
    pub street: String,
    pub city: String,
    pub area: String,
    pub is_favorite: u8,
    pub is_new: u8,
    pub needs_upload: u8,
    pub record_line_count: i32,
    pub detail_info_checksum: i32,
    /// Start of the flight, in milliseconds since the Unix epoch.
    pub start_time: i64,
    /// Degrees, as the bits of a binary64 value.
    pub longitude: u64,
    /// Degrees, as the bits of a binary64 value.
    pub latitude: u64,
    /// Meters, as the bits of a binary32 value.
    pub total_distance: u32,
    /// Flight time in milliseconds.
    pub total_time: i32,
    /// Meters, as the bits of a binary32 value.
    pub max_height: u32,
    /// Meters per second, as the bits of a binary32 value.
    pub max_horizontal_speed: u32,
    /// Meters per second, as the bits of a binary32 value.
    pub max_vertical_speed: u32,
    pub capture_num: i32,
    pub video_time: i64,
    pub moment_pic_image_buffer_len: [i32; 4],
    pub moment_pic_shrink_image_buffer_len: [i32; 4],
    /// Radians, as the bits of binary64 values.
    pub moment_pic_longitude: [u64; 4],
    /// Radians, as the bits of binary64 values.
    pub moment_pic_latitude: [u64; 4],
    /// Meters, as the bits of a binary32 value.
    pub take_off_altitude: u32,
    pub product_type: ProductType,
    pub aircraft_name: String,
    pub aircraft_sn: String,
    pub camera_sn: String,
    pub rc_sn: String,
    pub battery_sn: String,
    pub app_platform: Platform,
    pub app_version: String,
}

/// Logs up to format 5 place the fields after the moment pictures at fixed
/// positions of an older layout.
pub open spec fn is_old_details_layout(version: u8) -> bool {
    version <= 5
}

/// Position of the take-off altitude.
pub open spec fn take_off_at(version: u8) -> int {
    if is_old_details_layout(version) { 352 } else { 267 }
}

/// Position of the product type byte.
pub open spec fn product_at(version: u8) -> int {
    if is_old_details_layout(version) { 277 } else { 271 }
}

/// Position of the aircraft name.
pub open spec fn name_at(version: u8) -> int {
    if is_old_details_layout(version) { 278 } else { 280 }
}

/// Length of the aircraft name.
pub open spec fn name_len(version: u8) -> int {
    if is_old_details_layout(version) { 24 } else { 32 }
}

/// Length of each serial number field.
pub open spec fn sn_len(version: u8) -> int {
    if is_old_details_layout(version) { 10 } else { 16 }
}

/// Position of the aircraft serial number.
pub open spec fn aircraft_sn_at(version: u8) -> int {
    if is_old_details_layout(version) { 267 } else { 312 }
}

/// Position of the camera serial number; the remote controller and battery
/// serial numbers, the platform byte and the three version bytes follow it.
pub open spec fn camera_sn_at(version: u8) -> int {
    if is_old_details_layout(version) { 318 } else { 328 }
}

/// The number of bytes a details block spans.
pub open spec fn details_size(version: u8) -> int {
    if is_old_details_layout(version) { 356 } else { 380 }
}

/// The text of the fixed-width field of `len` bytes at `at`.
pub open spec fn text_at(b: Seq<u8>, at: int, len: int) -> Seq<char> {
    spec_fixed_string(b.subrange(at, at + len))
}

/// The four signed 32-bit values at `at`.
pub open spec fn i32x4_at(b: Seq<u8>, at: int) -> Seq<i32> {
    seq![as_i32(le_u32(b, at)), as_i32(le_u32(b, at + 4)), as_i32(le_u32(b, at + 8)), as_i32(le_u32(b, at + 12))]
}

/// The four 64-bit values at `at`.
pub open spec fn u64x4_at(b: Seq<u8>, at: int) -> Seq<u64> {
    seq![le_u64(b, at), le_u64(b, at + 8), le_u64(b, at + 16), le_u64(b, at + 24)]
}

impl Details {
    /// The address and flags at the start of the block.
    pub open spec fn has_head(self, b: Seq<u8>) -> bool {
        &&& self.sub_street@ == text_at(b, 0, 20)
        &&& self.street@ == text_at(b, 20, 20)
        &&& self.city@ == text_at(b, 40, 20)
        &&& self.area@ == text_at(b, 60, 20)
        &&& self.is_favorite == b[80]
        &&& self.is_new == b[81]
        &&& self.needs_upload == b[82]
    }

    /// The flight figures that follow the flags.
    pub open spec fn has_figures(self, b: Seq<u8>) -> bool {
        &&& self.record_line_count == as_i32(le_u32(b, 83))
        &&& self.detail_info_checksum == as_i32(le_u32(b, 87))
        &&& self.start_time == as_i64(le_u64(b, 91))
        &&& self.longitude == le_u64(b, 99)
        &&& self.latitude == le_u64(b, 107)
        &&& self.total_distance == le_u32(b, 115)
        &&& self.total_time == as_i32(le_u32(b, 119))
        &&& self.max_height == le_u32(b, 123)
        &&& self.max_horizontal_speed == le_u32(b, 127)
        &&& self.max_vertical_speed == le_u32(b, 131)
        &&& self.capture_num == as_i32(le_u32(b, 135))
        &&& self.video_time == as_i64(le_u64(b, 139))
        &&& self.moment_pic_image_buffer_len@ == i32x4_at(b, 147)
        &&& self.moment_pic_shrink_image_buffer_len@ == i32x4_at(b, 163)
        &&& self.moment_pic_longitude@ == u64x4_at(b, 179)
        &&& self.moment_pic_latitude@ == u64x4_at(b, 211)
    }

    /// The aircraft fields, placed by the layout of format `version`.
    pub open spec fn has_aircraft(self, b: Seq<u8>, version: u8) -> bool {
        let c = camera_sn_at(version);
        let n = sn_len(version);
        &&& self.take_off_altitude == le_u32(b, take_off_at(version))
        &&& self.product_type == ProductType::spec_from_code(b[product_at(version)])
        &&& self.aircraft_name@ == text_at(b, name_at(version), name_len(version))
        &&& self.aircraft_sn@ == text_at(b, aircraft_sn_at(version), n)
        &&& self.camera_sn@ == text_at(b, c, n)
        &&& self.rc_sn@ == text_at(b, c + n, n)
        &&& self.battery_sn@ == spec_battery_sn(self.product_type, b.subrange(c + 2 * n, c + 3 * n))
        &&& self.app_platform == Platform::spec_from_code(b[c + 3 * n])
        &&& self.app_version@ == dotted_version(b[c + 3 * n + 1], b[c + 3 * n + 2], b[c + 3 * n + 3])
    }

    /// `self` is the details block that `b` starts with, in a log of format
    /// `version`.
    pub open spec fn is_read_from(self, b: Seq<u8>, version: u8) -> bool {
        self.has_head(b) && self.has_figures(b) && self.has_aircraft(b, version)
    }

    /// Reads the details block that `b` starts with; `None` where `b` is
    /// shorter than the block (`details_size`).
    pub fn parse(b: &[u8], version: u8) -> (r: Option<Details>)
        ensures
            r is Some <==> b@.len() >= details_size(version),
            r matches Some(d) ==> d.is_read_from(b@, version),
    {
        let old_layout = version <= 5;
        let size: usize = if old_layout { 356 } else { 380 };
        if b.len() < size {
            return None;
        }
        let take_off: usize = if old_layout { 352 } else { 267 };
        let product: usize = if old_layout { 277 } else { 271 };
        let name: usize = if old_layout { 278 } else { 280 };
        let name_n: usize = if old_layout { 24 } else { 32 };
        let n: usize = if old_layout { 10 } else { 16 };
        let aircraft: usize = if old_layout { 267 } else { 312 };
        let c: usize = if old_layout { 318 } else { 328 };
        let product_type = ProductType::from_code(b[product]);
        let battery_buf = slice_range(b, c + 2 * n, c + 3 * n);
        let d = Details {
            sub_street: fixed_string(slice_range(b, 0, 20).as_slice()),
            street: fixed_string(slice_range(b, 20, 40).as_slice()),
            city: fixed_string(slice_range(b, 40, 60).as_slice()),
            area: fixed_string(slice_range(b, 60, 80).as_slice()),
            is_favorite: b[80],
            is_new: b[81],
            needs_upload: b[82],
            record_line_count: to_i32(read_u32_le(b, 83)),
            detail_info_checksum: to_i32(read_u32_le(b, 87)),
            start_time: to_i64(read_u64_le(b, 91)),
            longitude: read_u64_le(b, 99),
            latitude: read_u64_le(b, 107),
            total_distance: read_u32_le(b, 115),
            total_time: to_i32(read_u32_le(b, 119)),
            max_height: read_u32_le(b, 123),
            max_horizontal_speed: read_u32_le(b, 127),
            max_vertical_speed: read_u32_le(b, 131),
            capture_num: to_i32(read_u32_le(b, 135)),
            video_time: to_i64(read_u64_le(b, 139)),
            moment_pic_image_buffer_len: read_i32x4(b, 147),
            moment_pic_shrink_image_buffer_len: read_i32x4(b, 163),
            moment_pic_longitude: read_u64x4(b, 179),
            moment_pic_latitude: read_u64x4(b, 211),
            take_off_altitude: read_u32_le(b, take_off),
            product_type,
            aircraft_name: fixed_string(slice_range(b, name, name + name_n).as_slice()),
            aircraft_sn: fixed_string(slice_range(b, aircraft, aircraft + n).as_slice()),
            camera_sn: fixed_string(slice_range(b, c, c + n).as_slice()),
            rc_sn: fixed_string(slice_range(b, c + n, c + 2 * n).as_slice()),
            battery_sn: parse_battery_sn(product_type, battery_buf),
            app_platform: Platform::from_code(b[c + 3 * n]),
            app_version: format_dotted_version(b[c + 3 * n + 1], b[c + 3 * n + 2], b[c + 3 * n + 3]),
        };
        Some(d)
    }
}

/// Reads four signed 32-bit little-endian values at `at`.
fn read_i32x4(b: &[u8], at: usize) -> (r: [i32; 4])
    requires
        at + 16 <= b@.len(),
    ensures
        r@ == i32x4_at(b@, at as int),
{
    assert(b@.len() == b.len());
    let r = [
        to_i32(read_u32_le(b, at)),
        to_i32(read_u32_le(b, at + 4)),
        to_i32(read_u32_le(b, at + 8)),
        to_i32(read_u32_le(b, at + 12)),
    ];
    assert(r@ =~= i32x4_at(b@, at as int));
    r
}

/// Reads four 64-bit little-endian values at `at`.
fn read_u64x4(b: &[u8], at: usize) -> (r: [u64; 4])
    requires
        at + 32 <= b@.len(),
    ensures
        r@ == u64x4_at(b@, at as int),
{
    assert(b@.len() == b.len());
    let r = [read_u64_le(b, at), read_u64_le(b, at + 8), read_u64_le(b, at + 16), read_u64_le(b, at + 24)];
    assert(r@ =~= u64x4_at(b@, at as int));
    r
}


/// Where each field of a details block sits: the address texts at 0, 20,
/// 40 and 60 (20 bytes each), three flags at 80-82, the flight figures as
/// little-endian values from 83 on (start time at 91, position at 99 and
/// 107, distance, time, height and speeds up to 131, capture count and
/// video time), the moment pictures from 147 on; then, up to format 5, the
/// aircraft serial at 267 (10 bytes), the product type at 277, the name at
/// 278 (24 bytes) and the take-off altitude at 352, and after format 5 the
/// take-off altitude at 267, the product type at 271, the name at 280 (32
/// bytes) and the aircraft serial at 312 (16 bytes); the camera, remote
/// controller and battery serials follow at 318 (or 328), then the app
/// platform and the three app version bytes.
pub proof fn lemma_details_layout(d: Details, b: Seq<u8>, version: u8)
    requires
        d.is_read_from(b, version),
        version <= 5 ==> b.len() >= 356,
        version > 5 ==> b.len() >= 380,
    ensures
        version <= 5 ==> details_size(version) == 356,
        version > 5 ==> details_size(version) == 380,
        d.sub_street@ == spec_fixed_string(b.subrange(0, 20)),
        d.street@ == spec_fixed_string(b.subrange(20, 40)),
        d.city@ == spec_fixed_string(b.subrange(40, 60)),
        d.area@ == spec_fixed_string(b.subrange(60, 80)),
        d.is_favorite == b[80] && d.is_new == b[81] && d.needs_upload == b[82],
        d.record_line_count as int == le_signed32(b, 83),
        d.detail_info_checksum as int == le_signed32(b, 87),
        d.start_time as int == le_signed64(b, 91),
        d.longitude as int == le_bytes(b, 99, 8),
        d.latitude as int == le_bytes(b, 107, 8),
        d.total_distance as int == le_bytes(b, 115, 4),
        d.total_time as int == le_signed32(b, 119),
        d.max_height as int == le_bytes(b, 123, 4),
        d.max_horizontal_speed as int == le_bytes(b, 127, 4),
        d.max_vertical_speed as int == le_bytes(b, 131, 4),
        d.capture_num as int == le_signed32(b, 135),
        d.video_time as int == le_signed64(b, 139),
        version <= 5 ==> {
            &&& d.take_off_altitude as int == le_bytes(b, 352, 4)
            &&& d.product_type == ProductType::spec_from_code(b[277])
            &&& d.aircraft_name@ == spec_fixed_string(b.subrange(278, 302))
            &&& d.aircraft_sn@ == spec_fixed_string(b.subrange(267, 277))
            &&& d.camera_sn@ == spec_fixed_string(b.subrange(318, 328))
            &&& d.rc_sn@ == spec_fixed_string(b.subrange(328, 338))
            &&& d.battery_sn@ == spec_battery_sn(d.product_type, b.subrange(338, 348))
            &&& d.app_platform == Platform::spec_from_code(b[348])
            &&& d.app_version@ == dotted_version(b[349], b[350], b[351])
        },
        version > 5 ==> {
            &&& d.take_off_altitude as int == le_bytes(b, 267, 4)
            &&& d.product_type == ProductType::spec_from_code(b[271])
            &&& d.aircraft_name@ == spec_fixed_string(b.subrange(280, 312))
            &&& d.aircraft_sn@ == spec_fixed_string(b.subrange(312, 328))
            &&& d.camera_sn@ == spec_fixed_string(b.subrange(328, 344))
            &&& d.rc_sn@ == spec_fixed_string(b.subrange(344, 360))
            &&& d.battery_sn@ == spec_battery_sn(d.product_type, b.subrange(360, 376))
            &&& d.app_platform == Platform::spec_from_code(b[376])
            &&& d.app_version@ == dotted_version(b[377], b[378], b[379])
        },
{
    lemma_le_32(b, 83);
    lemma_le_32(b, 87);
    lemma_le_64(b, 91);
    lemma_le_64(b, 99);
    lemma_le_64(b, 107);
    lemma_le_32(b, 115);
    lemma_le_32(b, 119);
    lemma_le_32(b, 123);
    lemma_le_32(b, 127);
    lemma_le_32(b, 131);
    lemma_le_32(b, 135);
    lemma_le_64(b, 139);
    if version <= 5 {
        lemma_le_32(b, 352);
    } else {
        lemma_le_32(b, 267);
    }
}

} // verus!
