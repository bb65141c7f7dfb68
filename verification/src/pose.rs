//! The joint pose table: fixed calibration data for both hands.
//!
//! Each hand carries 26 joints in the canonical order, each with a position,
//! an orientation, validity and tracking flags, and a radius.  The data
//! seeds initial spawn transforms and colliders and has no runtime mutation
//! path.  Coordinates and radii are fixed-point (`SCALE` units per meter);
//! orientation components are unit-quaternion components at the same scale.

use vstd::prelude::*;
use crate::math::{Vec3Fx, SCALE, vec_in_range};
use crate::bones::{Hand, NameToHandJoint, PhysicsHandBone, spec_joint_index, spec_bone_span};
use crate::bones::bone_span;

verus! {

/// A quaternion in fixed-point coordinates (components at `SCALE`).
#[derive(Clone, Copy, Debug, PartialEq, Eq, Structural)]
pub struct QuatFx {
    pub x: i64,
    pub y: i64,
    pub z: i64,
    pub w: i64,
}

/// Calibration data for one joint.
#[derive(Clone, Copy, Debug, PartialEq, Eq, Structural)]
pub struct HandJoint {
    pub position: Vec3Fx,
    pub position_valid: bool,
    pub position_tracked: bool,
    pub orientation: QuatFx,
    pub orientation_valid: bool,
    pub orientation_tracked: bool,
    pub radius: i64,
}

/// The 26 joints of one hand, in the canonical order.
#[derive(Clone, Copy, Debug)]
pub struct HandJoints {
    pub inner: [HandJoint; 26],
}

/// A joint whose position lies in the working volume, with a nonnegative
/// radius no larger than a meter and unit-scale orientation components.
pub open spec fn wf_joint(j: HandJoint) -> bool {
    vec_in_range(j.position)
        && 0 <= j.radius <= SCALE
        && -(SCALE as int) <= j.orientation.x <= SCALE as int
        && -(SCALE as int) <= j.orientation.y <= SCALE as int
        && -(SCALE as int) <= j.orientation.z <= SCALE as int
        && -(SCALE as int) <= j.orientation.w <= SCALE as int
}

/// Calibration data of the right hand's joint at canonical position `i`
/// (meaningful for `0 <= i < 26`).
pub open spec fn spec_right_joint(i: int) -> HandJoint {
    if i == 0 {
        // Palm
        HandJoint {
            position: Vec3Fx { x: 115_789_560i64, y: 1_032_229_800i64, z: -79_403_060i64 },
            position_valid: true,
            position_tracked: true,
            orientation: QuatFx { x: -160_579_230i64, y: -597_788_900i64, z: 769_889_350i64, w: -155_349_310i64 },
            orientation_valid: true,
            orientation_tracked: true,
            radius: 17_204_836i64,
        }
    } else if i == 1 {
        // Wrist
        HandJoint {
            position: Vec3Fx { x: 110_605_344i64, y: 965_450_350i64, z: -69_130_330i64 },
            position_valid: true,
            position_tracked: true,
            orientation: QuatFx { x: -160_579_230i64, y: -597_788_900i64, z: 769_889_350i64, w: -155_349_310i64 },
            orientation_valid: true,
            orientation_tracked: true,
            radius: 22_538_071i64,
        }
    } else if i == 2 {
        // ThumbMetacarpal
        HandJoint {
            position: Vec3Fx { x: 138_413_980i64, y: 1_002_140_600i64, z: -52_384_503i64 },
            position_valid: true,
            position_tracked: true,
            orientation: QuatFx { x: -736_301_540i64, y: -306_013_850i64, z: 561_490_950i64, w: -221_232_820i64 },
            orientation_valid: true,
            orientation_tracked: true,
            radius: 20_355_420i64,
        }
    } else if i == 3 {
        // ThumbProximal
        HandJoint {
            position: Vec3Fx { x: 162_023_560i64, y: 1_024_998_500i64, z: -43_111_823i64 },
            position_valid: true,
            position_tracked: true,
            orientation: QuatFx { x: -647_483_400i64, y: -404_396_650i64, z: 590_341_750i64, w: -262_155_920i64 },
            orientation_valid: true,
            orientation_tracked: true,
            radius: 12_899_493i64,
        }
    } else if i == 4 {
        // ThumbDistal
        HandJoint {
            position: Vec3Fx { x: 181_629_390i64, y: 1_053_991_400i64, z: -37_236_840i64 },
            position_valid: true,
            position_tracked: true,
            orientation: QuatFx { x: -759_164_750i64, y: -249_312_430i64, z: 580_794_750i64, w: -155_532_550i64 },
            orientation_valid: true,
            orientation_tracked: true,
            radius: 10_259_149i64,
        }
    } else if i == 5 {
        // ThumbTip
        HandJoint {
            position: Vec3Fx { x: 203_144_790i64, y: 1_066_816_000i64, z: -30_817_013i64 },
            position_valid: true,
            position_tracked: true,
            orientation: QuatFx { x: -759_164_750i64, y: -249_312_430i64, z: 580_794_750i64, w: -155_532_550i64 },
            orientation_valid: true,
            orientation_tracked: true,
            radius: 9_208_953i64,
        }
    } else if i == 6 {
        // IndexMetacarpal
        HandJoint {
            position: Vec3Fx { x: 129_540_250i64, y: 1_003_958_600i64, z: -61_990_373i64 },
            position_valid: true,
            position_tracked: true,
            orientation: QuatFx { x: -160_579_230i64, y: -597_788_900i64, z: 769_889_350i64, w: -155_349_310i64 },
            orientation_valid: true,
            orientation_tracked: true,
            radius: 22_293_832i64,
        }
    } else if i == 7 {
        // IndexProximal
        HandJoint {
            position: Vec3Fx { x: 135_758_310i64, y: 1_066_265_500i64, z: -75_295_100i64 },
            position_valid: true,
            position_tracked: true,
            orientation: QuatFx { x: -172_342_120i64, y: -609_411_540i64, z: 751_742_400i64, w: -183_846_710i64 },
            orientation_valid: true,
            orientation_tracked: true,
            radius: 10_812_029i64,
        }
    } else if i == 8 {
        // IndexIntermediate
        HandJoint {
            position: Vec3Fx { x: 137_153_880i64, y: 1_105_284_500i64, z: -83_174_960i64 },
            position_valid: true,
            position_tracked: true,
            orientation: QuatFx { x: -139_624_090i64, y: -661_413_500i64, z: 714_954_260i64, w: -178_544_370i64 },
            orientation_valid: true,
            orientation_tracked: true,
            radius: 8_966_670i64,
        }
    } else if i == 9 {
        // IndexDistal
        HandJoint {
            position: Vec3Fx { x: 136_221_410i64, y: 1_130_696_200i64, z: -85_371_900i64 },
            position_valid: true,
            position_tracked: true,
            orientation: QuatFx { x: -115_721_880i64, y: -634_191_600i64, z: 743_071_900i64, w: -179_595_000i64 },
            orientation_valid: true,
            orientation_tracked: true,
            radius: 8_019_494i64,
        }
    } else if i == 10 {
        // IndexTip
        HandJoint {
            position: Vec3Fx { x: 135_073_750i64, y: 1_153_629_400i64, z: -90_430_770i64 },
            position_valid: true,
            position_tracked: true,
            orientation: QuatFx { x: -115_721_880i64, y: -634_191_600i64, z: 743_071_900i64, w: -179_595_000i64 },
            orientation_valid: true,
            orientation_tracked: true,
            radius: 6_969_299i64,
        }
    } else if i == 11 {
        // MiddleMetacarpal
        HandJoint {
            position: Vec3Fx { x: 114_313_860i64, y: 1_000_820_900i64, z: -69_308_540i64 },
            position_valid: true,
            position_tracked: true,
            orientation: QuatFx { x: -160_579_230i64, y: -597_788_900i64, z: 769_889_350i64, w: -155_349_310i64 },
            orientation_valid: true,
            orientation_tracked: true,
            radius: 22_297_699i64,
        }
    } else if i == 12 {
        // MiddleProximal
        HandJoint {
            position: Vec3Fx { x: 117_265_260i64, y: 1_063_638_700i64, z: -89_497_570i64 },
            position_valid: true,
            position_tracked: true,
            orientation: QuatFx { x: -108_779_580i64, y: -651_611_800i64, z: 727_508_800i64, w: -185_203_120i64 },
            orientation_valid: true,
            orientation_tracked: true,
            radius: 11_734_813i64,
        }
    } else if i == 13 {
        // MiddleIntermediate
        HandJoint {
            position: Vec3Fx { x: 113_519_650i64, y: 1_108_197_500i64, z: -95_229_180i64 },
            position_valid: true,
            position_tracked: true,
            orientation: QuatFx { x: -97_484_170i64, y: -655_167_040i64, z: 727_155_700i64, w: -180_271_950i64 },
            orientation_valid: true,
            orientation_tracked: true,
            radius: 8_434_071i64,
        }
    } else if i == 14 {
        // MiddleDistal
        HandJoint {
            position: Vec3Fx { x: 110_787_160i64, y: 1_136_781_700i64, z: -98_773_590i64 },
            position_valid: true,
            position_tracked: true,
            orientation: QuatFx { x: -78_989_120i64, y: -620_731_900i64, z: 765_727_500i64, w: -148_709_270i64 },
            orientation_valid: true,
            orientation_tracked: true,
            radius: 8_012_368i64,
        }
    } else if i == 15 {
        // MiddleTip
        HandJoint {
            position: Vec3Fx { x: 109_201_774i64, y: 1_162_057_900i64, z: -105_666_840i64 },
            position_valid: true,
            position_tracked: true,
            orientation: QuatFx { x: -78_989_120i64, y: -620_731_900i64, z: 765_727_500i64, w: -148_709_270i64 },
            orientation_valid: true,
            orientation_tracked: true,
            radius: 6_962_173i64,
        }
    } else if i == 16 {
        // RingMetacarpal
        HandJoint {
            position: Vec3Fx { x: 95_955_200i64, y: 1_001_642_800i64, z: -78_983_560i64 },
            position_valid: true,
            position_tracked: true,
            orientation: QuatFx { x: -160_579_230i64, y: -597_788_900i64, z: 769_889_350i64, w: -155_349_310i64 },
            orientation_valid: true,
            orientation_tracked: true,
            radius: 20_046_410i64,
        }
    } else if i == 17 {
        // RingProximal
        HandJoint {
            position: Vec3Fx { x: 96_868_700i64, y: 1_056_594_000i64, z: -92_873_190i64 },
            position_valid: true,
            position_tracked: true,
            orientation: QuatFx { x: -61_285_853i64, y: -644_551_700i64, z: 743_820_500i64, w: -165_917_440i64 },
            orientation_valid: true,
            orientation_tracked: true,
            radius: 10_420_178i64,
        }
    } else if i == 18 {
        // RingIntermediate
        HandJoint {
            position: Vec3Fx { x: 91_843_160i64, y: 1_096_695_700i64, z: -99_491_060i64 },
            position_valid: true,
            position_tracked: true,
            orientation: QuatFx { x: -35_476_506i64, y: -655_088_070i64, z: 741_032_060i64, w: -143_082_920i64 },
            orientation_valid: true,
            orientation_tracked: true,
            radius: 7_993_739i64,
        }
    } else if i == 19 {
        // RingDistal
        HandJoint {
            position: Vec3Fx { x: 88_078_886i64, y: 1_124_073_600i64, z: -103_375_815i64 },
            position_valid: true,
            position_tracked: true,
            orientation: QuatFx { x: -50_440_550i64, y: -675_034_700i64, z: 726_163_400i64, w: -120_295_140i64 },
            orientation_valid: true,
            orientation_tracked: true,
            radius: 7_594_052i64,
        }
    } else if i == 20 {
        // RingTip
        HandJoint {
            position: Vec3Fx { x: 85_949_760i64, y: 1_149_299_600i64, z: -107_209_820i64 },
            position_valid: true,
            position_tracked: true,
            orientation: QuatFx { x: -50_440_550i64, y: -675_034_700i64, z: 726_163_400i64, w: -120_295_140i64 },
            orientation_valid: true,
            orientation_tracked: true,
            radius: 6_543_857i64,
        }
    } else if i == 21 {
        // LittleMetacarpal
        HandJoint {
            position: Vec3Fx { x: 86_799_720i64, y: 1_001_377_800i64, z: -79_339_650i64 },
            position_valid: true,
            position_tracked: true,
            orientation: QuatFx { x: 79_209_626i64, y: -604_226_100i64, z: 789_037_350i64, w: -77_825_710i64 },
            orientation_valid: true,
            orientation_tracked: true,
            radius: 18_996_214i64,
        }
    } else if i == 22 {
        // LittleProximal
        HandJoint {
            position: Vec3Fx { x: 76_300_375i64, y: 1_046_500_800i64, z: -91_672_905i64 },
            position_valid: true,
            position_tracked: true,
            orientation: QuatFx { x: 1_364_768i64, y: -611_447_000i64, z: 780_005_600i64, w: -133_125_190i64 },
            orientation_valid: true,
            orientation_tracked: true,
            radius: 8_909_174i64,
        }
    } else if i == 23 {
        // LittleIntermediate
        HandJoint {
            position: Vec3Fx { x: 70_979_420i64, y: 1_077_263_100i64, z: -99_811_480i64 },
            position_valid: true,
            position_tracked: true,
            orientation: QuatFx { x: 65_115_990i64, y: -639_235_300i64, z: 756_107_300i64, w: -124_258_610i64 },
            orientation_valid: true,
            orientation_tracked: true,
            radius: 7_103_722i64,
        }
    } else if i == 24 {
        // LittleDistal
        HandJoint {
            position: Vec3Fx { x: 65_490_335i64, y: 1_097_537_600i64, z: -103_528_954i64 },
            position_valid: true,
            position_tracked: true,
            orientation: QuatFx { x: 29_709_637i64, y: -658_804_200i64, z: 746_072_000i64, w: -92_039_190i64 },
            orientation_valid: true,
            orientation_tracked: true,
            radius: 6_748_536i64,
        }
    } else {
        // LittleTip
        HandJoint {
            position: Vec3Fx { x: 62_057_115i64, y: 1_119_942_500i64, z: -107_768_800i64 },
            position_valid: true,
            position_tracked: true,
            orientation: QuatFx { x: 29_709_637i64, y: -658_804_200i64, z: 746_072_000i64, w: -92_039_190i64 },
            orientation_valid: true,
            orientation_tracked: true,
            radius: 5_698_341i64,
        }
    }}

/// Calibration data of the left hand's joint at canonical position `i`
/// (meaningful for `0 <= i < 26`).
pub open spec fn spec_left_joint(i: int) -> HandJoint {
    if i == 0 {
        // Palm
        HandJoint {
            position: Vec3Fx { x: -91_996_850i64, y: 1_040_411_500i64, z: -138_631_360i64 },
            position_valid: true,
            position_tracked: true,
            orientation: QuatFx { x: -64_178_960i64, y: -615_196_940i64, z: 785_591_600i64, w: -16_115_963i64 },
            orientation_valid: true,
            orientation_tracked: true,
            radius: 17_204_836i64,
        }
    } else if i == 1 {
        // Wrist
        HandJoint {
            position: Vec3Fx { x: -93_779_340i64, y: 973_401_300i64, z: -127_050_120i64 },
            position_valid: true,
            position_tracked: true,
            orientation: QuatFx { x: -64_178_960i64, y: -615_196_940i64, z: 785_591_600i64, w: -16_115_963i64 },
            orientation_valid: true,
            orientation_tracked: true,
            radius: 22_538_071i64,
        }
    } else if i == 2 {
        // ThumbMetacarpal
        HandJoint {
            position: Vec3Fx { x: -125_510_220i64, y: 1_011_747_200i64, z: -126_378_920i64 },
            position_valid: true,
            position_tracked: true,
            orientation: QuatFx { x: 605_348_170i64, y: -380_905_400i64, z: 684_380_500i64, w: 141_732_960i64 },
            orientation_valid: true,
            orientation_tracked: true,
            radius: 20_355_420i64,
        }
    } else if i == 3 {
        // ThumbProximal
        HandJoint {
            position: Vec3Fx { x: -150_115_150i64, y: 1_035_408_500i64, z: -125_591_170i64 },
            position_valid: true,
            position_tracked: true,
            orientation: QuatFx { x: 515_786_000i64, y: -462_327_540i64, z: 706_207_160i64, w: 146_594_520i64 },
            orientation_valid: true,
            orientation_tracked: true,
            radius: 12_899_493i64,
        }
    } else if i == 4 {
        // ThumbDistal
        HandJoint {
            position: Vec3Fx { x: -171_158_690i64, y: 1_063_949_700i64, z: -127_026_240i64 },
            position_valid: true,
            position_tracked: true,
            orientation: QuatFx { x: 621_702_730i64, y: -294_661_280i64, z: 721_465_400i64, w: 78_412_086i64 },
            orientation_valid: true,
            orientation_tracked: true,
            radius: 10_259_149i64,
        }
    } else if i == 5 {
        // ThumbTip
        HandJoint {
            position: Vec3Fx { x: -193_498_390i64, y: 1_076_748_100i64, z: -129_420_760i64 },
            position_valid: true,
            position_tracked: true,
            orientation: QuatFx { x: 621_702_730i64, y: -294_661_280i64, z: 721_465_400i64, w: 78_412_086i64 },
            orientation_valid: true,
            orientation_tracked: true,
            radius: 9_208_953i64,
        }
    } else if i == 6 {
        // IndexMetacarpal
        HandJoint {
            position: Vec3Fx { x: -113_074_930i64, y: 1_012_743_400i64, z: -130_564_000i64 },
            position_valid: true,
            position_tracked: true,
            orientation: QuatFx { x: -64_178_960i64, y: -615_196_940i64, z: 785_591_600i64, w: -16_115_963i64 },
            orientation_valid: true,
            orientation_tracked: true,
            radius: 22_293_832i64,
        }
    } else if i == 7 {
        // IndexProximal
        HandJoint {
            position: Vec3Fx { x: -110_930_070i64, y: 1_074_246_500i64, z: -146_297_540i64 },
            position_valid: true,
            position_tracked: true,
            orientation: QuatFx { x: -7_181_577i64, y: -703_385_800i64, z: 710_445_800i64, w: -21_536_648i64 },
            orientation_valid: true,
            orientation_tracked: true,
            radius: 10_812_029i64,
        }
    } else if i == 8 {
        // IndexIntermediate
        HandJoint {
            position: Vec3Fx { x: -111_730_400i64, y: 1_114_067_400i64, z: -146_711_540i64 },
            position_valid: true,
            position_tracked: true,
            orientation: QuatFx { x: -27_792_111i64, y: -752_150_400i64, z: 657_375_600i64, w: -36_809_683i64 },
            orientation_valid: true,
            orientation_tracked: true,
            radius: 8_966_670i64,
        }
    } else if i == 9 {
        // IndexDistal
        HandJoint {
            position: Vec3Fx { x: -112_211_080i64, y: 1_139_359_600i64, z: -143_316_800i64 },
            position_valid: true,
            position_tracked: true,
            orientation: QuatFx { x: -57_377_614i64, y: -750_611_900i64, z: 657_655_200i64, w: -27_916_580i64 },
            orientation_valid: true,
            orientation_tracked: true,
            radius: 8_019_494i64,
        }
    } else if i == 10 {
        // IndexTip
        HandJoint {
            position: Vec3Fx { x: -110_982_716i64, y: 1_162_745_100i64, z: -141_206_230i64 },
            position_valid: true,
            position_tracked: true,
            orientation: QuatFx { x: -57_377_614i64, y: -750_611_900i64, z: 657_655_200i64, w: -27_916_580i64 },
            orientation_valid: true,
            orientation_tracked: true,
            radius: 6_969_299i64,
        }
    } else if i == 11 {
        // MiddleMetacarpal
        HandJoint {
            position: Vec3Fx { x: -96_276_210i64, y: 1_009_377_500i64, z: -128_982_070i64 },
            position_valid: true,
            position_tracked: true,
            orientation: QuatFx { x: -64_178_960i64, y: -615_196_940i64, z: 785_591_600i64, w: -16_115_963i64 },
            orientation_valid: true,
            orientation_tracked: true,
            radius: 22_297_699i64,
        }
    } else if i == 12 {
        // MiddleProximal
        HandJoint {
            position: Vec3Fx { x: -87_717_480i64, y: 1_071_445_500i64, z: -148_280_650i64 },
            position_valid: true,
            position_tracked: true,
            orientation: QuatFx { x: -135_124_880i64, y: -708_953_740i64, z: 692_040_800i64, w: 14_331_311i64 },
            orientation_valid: true,
            orientation_tracked: true,
            radius: 11_734_813i64,
        }
    } else if i == 13 {
        // MiddleIntermediate
        HandJoint {
            position: Vec3Fx { x: -78_370_050i64, y: 1_115_507_200i64, z: -146_398_570i64 },
            position_valid: true,
            position_tracked: true,
            orientation: QuatFx { x: -146_436_630i64, y: -735_652_900i64, z: 661_331_600i64, w: 3_451_765i64 },
            orientation_valid: true,
            orientation_tracked: true,
            radius: 8_434_071i64,
        }
    } else if i == 14 {
        // MiddleDistal
        HandJoint {
            position: Vec3Fx { x: -72_619_304i64, y: 1_143_629_900i64, z: -142_774_570i64 },
            position_valid: true,
            position_tracked: true,
            orientation: QuatFx { x: -177_501_350i64, y: -711_618_070i64, z: 679_518_040i64, w: -18_677_175i64 },
            orientation_valid: true,
            orientation_tracked: true,
            radius: 8_012_368i64,
        }
    } else if i == 15 {
        // MiddleTip
        HandJoint {
            position: Vec3Fx { x: -66_356_090i64, y: 1_169_102_000i64, z: -141_847_270i64 },
            position_valid: true,
            position_tracked: true,
            orientation: QuatFx { x: -177_501_350i64, y: -711_618_070i64, z: 679_518_040i64, w: -18_677_175i64 },
            orientation_valid: true,
            orientation_tracked: true,
            radius: 6_962_173i64,
        }
    } else if i == 16 {
        // RingMetacarpal
        HandJoint {
            position: Vec3Fx { x: -75_872_704i64, y: 1_009_465_300i64, z: -127_632_830i64 },
            position_valid: true,
            position_tracked: true,
            orientation: QuatFx { x: -64_178_960i64, y: -615_196_940i64, z: 785_591_600i64, w: -16_115_963i64 },
            orientation_valid: true,
            orientation_tracked: true,
            radius: 20_046_410i64,
        }
    } else if i == 17 {
        // RingProximal
        HandJoint {
            position: Vec3Fx { x: -68_767_615i64, y: 1_064_306_700i64, z: -140_096_320i64 },
            position_valid: true,
            position_tracked: true,
            orientation: QuatFx { x: -205_485_800i64, y: -687_606_000i64, z: 696_272_100i64, w: 13_380_319i64 },
            orientation_valid: true,
            orientation_tracked: true,
            radius: 10_420_178i64,
        }
    } else if i == 18 {
        // RingIntermediate
        HandJoint {
            position: Vec3Fx { x: -56_295_270i64, y: 1_103_295_300i64, z: -138_865_580i64 },
            position_valid: true,
            position_tracked: true,
            orientation: QuatFx { x: -230_497_910i64, y: -719_994_070i64, z: 654_198_400i64, w: -22_447_780i64 },
            orientation_valid: true,
            orientation_tracked: true,
            radius: 7_993_739i64,
        }
    } else if i == 19 {
        // RingDistal
        HandJoint {
            position: Vec3Fx { x: -48_781_022i64, y: 1_129_873_900i64, z: -134_873_690i64 },
            position_valid: true,
            position_tracked: true,
            orientation: QuatFx { x: -214_700_010i64, y: -752_425_900i64, z: 619_693_700i64, w: -61_147_110i64 },
            orientation_valid: true,
            orientation_tracked: true,
            radius: 7_594_052i64,
        }
    } else if i == 20 {
        // RingTip
        HandJoint {
            position: Vec3Fx { x: -43_416_284i64, y: 1_154_537_700i64, z: -130_572_440i64 },
            position_valid: true,
            position_tracked: true,
            orientation: QuatFx { x: -214_700_010i64, y: -752_425_900i64, z: 619_693_700i64, w: -61_147_110i64 },
            orientation_valid: true,
            orientation_tracked: true,
            radius: 6_543_857i64,
        }
    } else if i == 21 {
        // LittleMetacarpal
        HandJoint {
            position: Vec3Fx { x: -67_970_770i64, y: 1_009_167_300i64, z: -122_997_060i64 },
            position_valid: true,
            position_tracked: true,
            orientation: QuatFx { x: -299_452_840i64, y: -598_896_270i64, z: 736_876_300i64, w: -93_083_440i64 },
            orientation_valid: true,
            orientation_tracked: true,
            radius: 18_996_214i64,
        }
    } else if i == 22 {
        // LittleProximal
        HandJoint {
            position: Vec3Fx { x: -52_160_684i64, y: 1_054_155_600i64, z: -127_950_000i64 },
            position_valid: true,
            position_tracked: true,
            orientation: QuatFx { x: -318_793_570i64, y: -675_440_850i64, z: 664_835_700i64, w: 12_003_437i64 },
            orientation_valid: true,
            orientation_tracked: true,
            radius: 8_909_174i64,
        }
    } else if i == 23 {
        // LittleIntermediate
        HandJoint {
            position: Vec3Fx { x: -37_961_796i64, y: 1_082_884_100i64, z: -124_217_260i64 },
            position_valid: true,
            position_tracked: true,
            orientation: QuatFx { x: -374_818_030i64, y: -702_257_900i64, z: 605_145_900i64, w: -11_998_042i64 },
            orientation_valid: true,
            orientation_tracked: true,
            radius: 7_103_722i64,
        }
    } else if i == 24 {
        // LittleDistal
        HandJoint {
            position: Vec3Fx { x: -28_644_710i64, y: 1_101_205_800i64, z: -118_515_310i64 },
            position_valid: true,
            position_tracked: true,
            orientation: QuatFx { x: -343_244_730i64, y: -725_230_200i64, z: 593_698_860i64, w: -61_205_940i64 },
            orientation_valid: true,
            orientation_tracked: true,
            radius: 6_748_536i64,
        }
    } else {
        // LittleTip
        HandJoint {
            position: Vec3Fx { x: -20_772_540i64, y: 1_122_184_900i64, z: -113_069_690i64 },
            position_valid: true,
            position_tracked: true,
            orientation: QuatFx { x: -343_244_730i64, y: -725_230_200i64, z: 593_698_860i64, w: -61_205_940i64 },
            orientation_valid: true,
            orientation_tracked: true,
            radius: 5_698_341i64,
        }
    }}

/// Calibration data of one hand's joint at canonical position `i`.
pub open spec fn spec_joint_data(hand: Hand, i: int) -> HandJoint {
    match hand {
        Hand::Left => spec_left_joint(i),
        Hand::Right => spec_right_joint(i),
    }
}

/// Every entry of both calibration tables is well formed.
pub proof fn lemma_joint_data_wf(hand: Hand, i: int)
    requires
        0 <= i < 26,
    ensures
        wf_joint(spec_joint_data(hand, i)),
{
}

/// The default calibration pose of the right hand.
pub fn get_default_right_hand() -> (r: HandJoints)
    ensures
        forall|i: int| 0 <= i < 26 ==> #[trigger] r.inner@[i] == spec_right_joint(i),
{
    HandJoints {
        inner: [
            // Palm
            HandJoint {
                position: Vec3Fx { x: 115_789_560i64, y: 1_032_229_800i64, z: -79_403_060i64 },
                position_valid: true,
                position_tracked: true,
                orientation: QuatFx { x: -160_579_230i64, y: -597_788_900i64, z: 769_889_350i64, w: -155_349_310i64 },
                orientation_valid: true,
                orientation_tracked: true,
                radius: 17_204_836i64,
            },
            // Wrist
            HandJoint {
                position: Vec3Fx { x: 110_605_344i64, y: 965_450_350i64, z: -69_130_330i64 },
                position_valid: true,
                position_tracked: true,
                orientation: QuatFx { x: -160_579_230i64, y: -597_788_900i64, z: 769_889_350i64, w: -155_349_310i64 },
                orientation_valid: true,
                orientation_tracked: true,
                radius: 22_538_071i64,
            },
            // ThumbMetacarpal
            HandJoint {
                position: Vec3Fx { x: 138_413_980i64, y: 1_002_140_600i64, z: -52_384_503i64 },
                position_valid: true,
                position_tracked: true,
                orientation: QuatFx { x: -736_301_540i64, y: -306_013_850i64, z: 561_490_950i64, w: -221_232_820i64 },
                orientation_valid: true,
                orientation_tracked: true,
                radius: 20_355_420i64,
            },
            // ThumbProximal
            HandJoint {
                position: Vec3Fx { x: 162_023_560i64, y: 1_024_998_500i64, z: -43_111_823i64 },
                position_valid: true,
                position_tracked: true,
                orientation: QuatFx { x: -647_483_400i64, y: -404_396_650i64, z: 590_341_750i64, w: -262_155_920i64 },
                orientation_valid: true,
                orientation_tracked: true,
                radius: 12_899_493i64,
            },
            // ThumbDistal
            HandJoint {
                position: Vec3Fx { x: 181_629_390i64, y: 1_053_991_400i64, z: -37_236_840i64 },
                position_valid: true,
                position_tracked: true,
                orientation: QuatFx { x: -759_164_750i64, y: -249_312_430i64, z: 580_794_750i64, w: -155_532_550i64 },
                orientation_valid: true,
                orientation_tracked: true,
                radius: 10_259_149i64,
            },
            // ThumbTip
            HandJoint {
                position: Vec3Fx { x: 203_144_790i64, y: 1_066_816_000i64, z: -30_817_013i64 },
                position_valid: true,
                position_tracked: true,
                orientation: QuatFx { x: -759_164_750i64, y: -249_312_430i64, z: 580_794_750i64, w: -155_532_550i64 },
                orientation_valid: true,
                orientation_tracked: true,
                radius: 9_208_953i64,
            },
            // IndexMetacarpal
            HandJoint {
                position: Vec3Fx { x: 129_540_250i64, y: 1_003_958_600i64, z: -61_990_373i64 },
                position_valid: true,
                position_tracked: true,
                orientation: QuatFx { x: -160_579_230i64, y: -597_788_900i64, z: 769_889_350i64, w: -155_349_310i64 },
                orientation_valid: true,
                orientation_tracked: true,
                radius: 22_293_832i64,
            },
            // IndexProximal
            HandJoint {
                position: Vec3Fx { x: 135_758_310i64, y: 1_066_265_500i64, z: -75_295_100i64 },
                position_valid: true,
                position_tracked: true,
                orientation: QuatFx { x: -172_342_120i64, y: -609_411_540i64, z: 751_742_400i64, w: -183_846_710i64 },
                orientation_valid: true,
                orientation_tracked: true,
                radius: 10_812_029i64,
            },
            // IndexIntermediate
            HandJoint {
                position: Vec3Fx { x: 137_153_880i64, y: 1_105_284_500i64, z: -83_174_960i64 },
                position_valid: true,
                position_tracked: true,
                orientation: QuatFx { x: -139_624_090i64, y: -661_413_500i64, z: 714_954_260i64, w: -178_544_370i64 },
                orientation_valid: true,
                orientation_tracked: true,
                radius: 8_966_670i64,
            },
            // IndexDistal
            HandJoint {
                position: Vec3Fx { x: 136_221_410i64, y: 1_130_696_200i64, z: -85_371_900i64 },
                position_valid: true,
                position_tracked: true,
                orientation: QuatFx { x: -115_721_880i64, y: -634_191_600i64, z: 743_071_900i64, w: -179_595_000i64 },
                orientation_valid: true,
                orientation_tracked: true,
                radius: 8_019_494i64,
            },
            // IndexTip
            HandJoint {
                position: Vec3Fx { x: 135_073_750i64, y: 1_153_629_400i64, z: -90_430_770i64 },
                position_valid: true,
                position_tracked: true,
                orientation: QuatFx { x: -115_721_880i64, y: -634_191_600i64, z: 743_071_900i64, w: -179_595_000i64 },
                orientation_valid: true,
                orientation_tracked: true,
                radius: 6_969_299i64,
            },
            // MiddleMetacarpal
            HandJoint {
                position: Vec3Fx { x: 114_313_860i64, y: 1_000_820_900i64, z: -69_308_540i64 },
                position_valid: true,
                position_tracked: true,
                orientation: QuatFx { x: -160_579_230i64, y: -597_788_900i64, z: 769_889_350i64, w: -155_349_310i64 },
                orientation_valid: true,
                orientation_tracked: true,
                radius: 22_297_699i64,
            },
            // MiddleProximal
            HandJoint {
                position: Vec3Fx { x: 117_265_260i64, y: 1_063_638_700i64, z: -89_497_570i64 },
                position_valid: true,
                position_tracked: true,
                orientation: QuatFx { x: -108_779_580i64, y: -651_611_800i64, z: 727_508_800i64, w: -185_203_120i64 },
                orientation_valid: true,
                orientation_tracked: true,
                radius: 11_734_813i64,
            },
            // MiddleIntermediate
            HandJoint {
                position: Vec3Fx { x: 113_519_650i64, y: 1_108_197_500i64, z: -95_229_180i64 },
                position_valid: true,
                position_tracked: true,
                orientation: QuatFx { x: -97_484_170i64, y: -655_167_040i64, z: 727_155_700i64, w: -180_271_950i64 },
                orientation_valid: true,
                orientation_tracked: true,
                radius: 8_434_071i64,
            },
            // MiddleDistal
            HandJoint {
                position: Vec3Fx { x: 110_787_160i64, y: 1_136_781_700i64, z: -98_773_590i64 },
                position_valid: true,
                position_tracked: true,
                orientation: QuatFx { x: -78_989_120i64, y: -620_731_900i64, z: 765_727_500i64, w: -148_709_270i64 },
                orientation_valid: true,
                orientation_tracked: true,
                radius: 8_012_368i64,
            },
            // MiddleTip
            HandJoint {
                position: Vec3Fx { x: 109_201_774i64, y: 1_162_057_900i64, z: -105_666_840i64 },
                position_valid: true,
                position_tracked: true,
                orientation: QuatFx { x: -78_989_120i64, y: -620_731_900i64, z: 765_727_500i64, w: -148_709_270i64 },
                orientation_valid: true,
                orientation_tracked: true,
                radius: 6_962_173i64,
            },
            // RingMetacarpal
            HandJoint {
                position: Vec3Fx { x: 95_955_200i64, y: 1_001_642_800i64, z: -78_983_560i64 },
                position_valid: true,
                position_tracked: true,
                orientation: QuatFx { x: -160_579_230i64, y: -597_788_900i64, z: 769_889_350i64, w: -155_349_310i64 },
                orientation_valid: true,
                orientation_tracked: true,
                radius: 20_046_410i64,
            },
            // RingProximal
            HandJoint {
                position: Vec3Fx { x: 96_868_700i64, y: 1_056_594_000i64, z: -92_873_190i64 },
                position_valid: true,
                position_tracked: true,
                orientation: QuatFx { x: -61_285_853i64, y: -644_551_700i64, z: 743_820_500i64, w: -165_917_440i64 },
                orientation_valid: true,
                orientation_tracked: true,
                radius: 10_420_178i64,
            },
            // RingIntermediate
            HandJoint {
                position: Vec3Fx { x: 91_843_160i64, y: 1_096_695_700i64, z: -99_491_060i64 },
                position_valid: true,
                position_tracked: true,
                orientation: QuatFx { x: -35_476_506i64, y: -655_088_070i64, z: 741_032_060i64, w: -143_082_920i64 },
                orientation_valid: true,
                orientation_tracked: true,
                radius: 7_993_739i64,
            },
            // RingDistal
            HandJoint {
                position: Vec3Fx { x: 88_078_886i64, y: 1_124_073_600i64, z: -103_375_815i64 },
                position_valid: true,
                position_tracked: true,
                orientation: QuatFx { x: -50_440_550i64, y: -675_034_700i64, z: 726_163_400i64, w: -120_295_140i64 },
                orientation_valid: true,
                orientation_tracked: true,
                radius: 7_594_052i64,
            },
            // RingTip
            HandJoint {
                position: Vec3Fx { x: 85_949_760i64, y: 1_149_299_600i64, z: -107_209_820i64 },
                position_valid: true,
                position_tracked: true,
                orientation: QuatFx { x: -50_440_550i64, y: -675_034_700i64, z: 726_163_400i64, w: -120_295_140i64 },
                orientation_valid: true,
                orientation_tracked: true,
                radius: 6_543_857i64,
            },
            // LittleMetacarpal
            HandJoint {
                position: Vec3Fx { x: 86_799_720i64, y: 1_001_377_800i64, z: -79_339_650i64 },
                position_valid: true,
                position_tracked: true,
                orientation: QuatFx { x: 79_209_626i64, y: -604_226_100i64, z: 789_037_350i64, w: -77_825_710i64 },
                orientation_valid: true,
                orientation_tracked: true,
                radius: 18_996_214i64,
            },
            // LittleProximal
            HandJoint {
                position: Vec3Fx { x: 76_300_375i64, y: 1_046_500_800i64, z: -91_672_905i64 },
                position_valid: true,
                position_tracked: true,
                orientation: QuatFx { x: 1_364_768i64, y: -611_447_000i64, z: 780_005_600i64, w: -133_125_190i64 },
                orientation_valid: true,
                orientation_tracked: true,
                radius: 8_909_174i64,
            },
            // LittleIntermediate
            HandJoint {
                position: Vec3Fx { x: 70_979_420i64, y: 1_077_263_100i64, z: -99_811_480i64 },
                position_valid: true,
                position_tracked: true,
                orientation: QuatFx { x: 65_115_990i64, y: -639_235_300i64, z: 756_107_300i64, w: -124_258_610i64 },
                orientation_valid: true,
                orientation_tracked: true,
                radius: 7_103_722i64,
            },
            // LittleDistal
            HandJoint {
                position: Vec3Fx { x: 65_490_335i64, y: 1_097_537_600i64, z: -103_528_954i64 },
                position_valid: true,
                position_tracked: true,
                orientation: QuatFx { x: 29_709_637i64, y: -658_804_200i64, z: 746_072_000i64, w: -92_039_190i64 },
                orientation_valid: true,
                orientation_tracked: true,
                radius: 6_748_536i64,
            },
            // LittleTip
            HandJoint {
                position: Vec3Fx { x: 62_057_115i64, y: 1_119_942_500i64, z: -107_768_800i64 },
                position_valid: true,
                position_tracked: true,
                orientation: QuatFx { x: 29_709_637i64, y: -658_804_200i64, z: 746_072_000i64, w: -92_039_190i64 },
                orientation_valid: true,
                orientation_tracked: true,
                radius: 5_698_341i64,
            },
        ],
    }
}

/// The default calibration pose of the left hand.
pub fn get_default_left_hand() -> (r: HandJoints)
    ensures
        forall|i: int| 0 <= i < 26 ==> #[trigger] r.inner@[i] == spec_left_joint(i),
{
    HandJoints {
        inner: [
            // Palm
            HandJoint {
                position: Vec3Fx { x: -91_996_850i64, y: 1_040_411_500i64, z: -138_631_360i64 },
                position_valid: true,
                position_tracked: true,
                orientation: QuatFx { x: -64_178_960i64, y: -615_196_940i64, z: 785_591_600i64, w: -16_115_963i64 },
                orientation_valid: true,
                orientation_tracked: true,
                radius: 17_204_836i64,
            },
            // Wrist
            HandJoint {
                position: Vec3Fx { x: -93_779_340i64, y: 973_401_300i64, z: -127_050_120i64 },
                position_valid: true,
                position_tracked: true,
                orientation: QuatFx { x: -64_178_960i64, y: -615_196_940i64, z: 785_591_600i64, w: -16_115_963i64 },
                orientation_valid: true,
                orientation_tracked: true,
                radius: 22_538_071i64,
            },
            // ThumbMetacarpal
            HandJoint {
                position: Vec3Fx { x: -125_510_220i64, y: 1_011_747_200i64, z: -126_378_920i64 },
                position_valid: true,
                position_tracked: true,
                orientation: QuatFx { x: 605_348_170i64, y: -380_905_400i64, z: 684_380_500i64, w: 141_732_960i64 },
                orientation_valid: true,
                orientation_tracked: true,
                radius: 20_355_420i64,
            },
            // ThumbProximal
            HandJoint {
                position: Vec3Fx { x: -150_115_150i64, y: 1_035_408_500i64, z: -125_591_170i64 },
                position_valid: true,
                position_tracked: true,
                orientation: QuatFx { x: 515_786_000i64, y: -462_327_540i64, z: 706_207_160i64, w: 146_594_520i64 },
                orientation_valid: true,
                orientation_tracked: true,
                radius: 12_899_493i64,
            },
            // ThumbDistal
            HandJoint {
                position: Vec3Fx { x: -171_158_690i64, y: 1_063_949_700i64, z: -127_026_240i64 },
                position_valid: true,
                position_tracked: true,
                orientation: QuatFx { x: 621_702_730i64, y: -294_661_280i64, z: 721_465_400i64, w: 78_412_086i64 },
                orientation_valid: true,
                orientation_tracked: true,
                radius: 10_259_149i64,
            },
            // ThumbTip
            HandJoint {
                position: Vec3Fx { x: -193_498_390i64, y: 1_076_748_100i64, z: -129_420_760i64 },
                position_valid: true,
                position_tracked: true,
                orientation: QuatFx { x: 621_702_730i64, y: -294_661_280i64, z: 721_465_400i64, w: 78_412_086i64 },
                orientation_valid: true,
                orientation_tracked: true,
                radius: 9_208_953i64,
            },
            // IndexMetacarpal
            HandJoint {
                position: Vec3Fx { x: -113_074_930i64, y: 1_012_743_400i64, z: -130_564_000i64 },
                position_valid: true,
                position_tracked: true,
                orientation: QuatFx { x: -64_178_960i64, y: -615_196_940i64, z: 785_591_600i64, w: -16_115_963i64 },
                orientation_valid: true,
                orientation_tracked: true,
                radius: 22_293_832i64,
            },
            // IndexProximal
            HandJoint {
                position: Vec3Fx { x: -110_930_070i64, y: 1_074_246_500i64, z: -146_297_540i64 },
                position_valid: true,
                position_tracked: true,
                orientation: QuatFx { x: -7_181_577i64, y: -703_385_800i64, z: 710_445_800i64, w: -21_536_648i64 },
                orientation_valid: true,
                orientation_tracked: true,
                radius: 10_812_029i64,
            },
            // IndexIntermediate
            HandJoint {
                position: Vec3Fx { x: -111_730_400i64, y: 1_114_067_400i64, z: -146_711_540i64 },
                position_valid: true,
                position_tracked: true,
                orientation: QuatFx { x: -27_792_111i64, y: -752_150_400i64, z: 657_375_600i64, w: -36_809_683i64 },
                orientation_valid: true,
                orientation_tracked: true,
                radius: 8_966_670i64,
            },
            // IndexDistal
            HandJoint {
                position: Vec3Fx { x: -112_211_080i64, y: 1_139_359_600i64, z: -143_316_800i64 },
                position_valid: true,
                position_tracked: true,
                orientation: QuatFx { x: -57_377_614i64, y: -750_611_900i64, z: 657_655_200i64, w: -27_916_580i64 },
                orientation_valid: true,
                orientation_tracked: true,
                radius: 8_019_494i64,
            },
            // IndexTip
            HandJoint {
                position: Vec3Fx { x: -110_982_716i64, y: 1_162_745_100i64, z: -141_206_230i64 },
                position_valid: true,
                position_tracked: true,
                orientation: QuatFx { x: -57_377_614i64, y: -750_611_900i64, z: 657_655_200i64, w: -27_916_580i64 },
                orientation_valid: true,
                orientation_tracked: true,
                radius: 6_969_299i64,
            },
            // MiddleMetacarpal
            HandJoint {
                position: Vec3Fx { x: -96_276_210i64, y: 1_009_377_500i64, z: -128_982_070i64 },
                position_valid: true,
                position_tracked: true,
                orientation: QuatFx { x: -64_178_960i64, y: -615_196_940i64, z: 785_591_600i64, w: -16_115_963i64 },
                orientation_valid: true,
                orientation_tracked: true,
                radius: 22_297_699i64,
            },
            // MiddleProximal
            HandJoint {
                position: Vec3Fx { x: -87_717_480i64, y: 1_071_445_500i64, z: -148_280_650i64 },
                position_valid: true,
                position_tracked: true,
                orientation: QuatFx { x: -135_124_880i64, y: -708_953_740i64, z: 692_040_800i64, w: 14_331_311i64 },
                orientation_valid: true,
                orientation_tracked: true,
                radius: 11_734_813i64,
            },
            // MiddleIntermediate
            HandJoint {
                position: Vec3Fx { x: -78_370_050i64, y: 1_115_507_200i64, z: -146_398_570i64 },
                position_valid: true,
                position_tracked: true,
                orientation: QuatFx { x: -146_436_630i64, y: -735_652_900i64, z: 661_331_600i64, w: 3_451_765i64 },
                orientation_valid: true,
                orientation_tracked: true,
                radius: 8_434_071i64,
            },
            // MiddleDistal
            HandJoint {
                position: Vec3Fx { x: -72_619_304i64, y: 1_143_629_900i64, z: -142_774_570i64 },
                position_valid: true,
                position_tracked: true,
                orientation: QuatFx { x: -177_501_350i64, y: -711_618_070i64, z: 679_518_040i64, w: -18_677_175i64 },
                orientation_valid: true,
                orientation_tracked: true,
                radius: 8_012_368i64,
            },
            // MiddleTip
            HandJoint {
                position: Vec3Fx { x: -66_356_090i64, y: 1_169_102_000i64, z: -141_847_270i64 },
                position_valid: true,
                position_tracked: true,
                orientation: QuatFx { x: -177_501_350i64, y: -711_618_070i64, z: 679_518_040i64, w: -18_677_175i64 },
                orientation_valid: true,
                orientation_tracked: true,
                radius: 6_962_173i64,
            },
            // RingMetacarpal
            HandJoint {
                position: Vec3Fx { x: -75_872_704i64, y: 1_009_465_300i64, z: -127_632_830i64 },
                position_valid: true,
                position_tracked: true,
                orientation: QuatFx { x: -64_178_960i64, y: -615_196_940i64, z: 785_591_600i64, w: -16_115_963i64 },
                orientation_valid: true,
                orientation_tracked: true,
                radius: 20_046_410i64,
            },
            // RingProximal
            HandJoint {
                position: Vec3Fx { x: -68_767_615i64, y: 1_064_306_700i64, z: -140_096_320i64 },
                position_valid: true,
                position_tracked: true,
                orientation: QuatFx { x: -205_485_800i64, y: -687_606_000i64, z: 696_272_100i64, w: 13_380_319i64 },
                orientation_valid: true,
                orientation_tracked: true,
                radius: 10_420_178i64,
            },
            // RingIntermediate
            HandJoint {
                position: Vec3Fx { x: -56_295_270i64, y: 1_103_295_300i64, z: -138_865_580i64 },
                position_valid: true,
                position_tracked: true,
                orientation: QuatFx { x: -230_497_910i64, y: -719_994_070i64, z: 654_198_400i64, w: -22_447_780i64 },
                orientation_valid: true,
                orientation_tracked: true,
                radius: 7_993_739i64,
            },
            // RingDistal
            HandJoint {
                position: Vec3Fx { x: -48_781_022i64, y: 1_129_873_900i64, z: -134_873_690i64 },
                position_valid: true,
                position_tracked: true,
                orientation: QuatFx { x: -214_700_010i64, y: -752_425_900i64, z: 619_693_700i64, w: -61_147_110i64 },
                orientation_valid: true,
                orientation_tracked: true,
                radius: 7_594_052i64,
            },
            // RingTip
            HandJoint {
                position: Vec3Fx { x: -43_416_284i64, y: 1_154_537_700i64, z: -130_572_440i64 },
                position_valid: true,
                position_tracked: true,
                orientation: QuatFx { x: -214_700_010i64, y: -752_425_900i64, z: 619_693_700i64, w: -61_147_110i64 },
                orientation_valid: true,
                orientation_tracked: true,
                radius: 6_543_857i64,
            },
            // LittleMetacarpal
            HandJoint {
                position: Vec3Fx { x: -67_970_770i64, y: 1_009_167_300i64, z: -122_997_060i64 },
                position_valid: true,
                position_tracked: true,
                orientation: QuatFx { x: -299_452_840i64, y: -598_896_270i64, z: 736_876_300i64, w: -93_083_440i64 },
                orientation_valid: true,
                orientation_tracked: true,
                radius: 18_996_214i64,
            },
            // LittleProximal
            HandJoint {
                position: Vec3Fx { x: -52_160_684i64, y: 1_054_155_600i64, z: -127_950_000i64 },
                position_valid: true,
                position_tracked: true,
                orientation: QuatFx { x: -318_793_570i64, y: -675_440_850i64, z: 664_835_700i64, w: 12_003_437i64 },
                orientation_valid: true,
                orientation_tracked: true,
                radius: 8_909_174i64,
            },
            // LittleIntermediate
            HandJoint {
                position: Vec3Fx { x: -37_961_796i64, y: 1_082_884_100i64, z: -124_217_260i64 },
                position_valid: true,
                position_tracked: true,
                orientation: QuatFx { x: -374_818_030i64, y: -702_257_900i64, z: 605_145_900i64, w: -11_998_042i64 },
                orientation_valid: true,
                orientation_tracked: true,
                radius: 7_103_722i64,
            },
            // LittleDistal
            HandJoint {
                position: Vec3Fx { x: -28_644_710i64, y: 1_101_205_800i64, z: -118_515_310i64 },
                position_valid: true,
                position_tracked: true,
                orientation: QuatFx { x: -343_244_730i64, y: -725_230_200i64, z: 593_698_860i64, w: -61_205_940i64 },
                orientation_valid: true,
                orientation_tracked: true,
                radius: 6_748_536i64,
            },
            // LittleTip
            HandJoint {
                position: Vec3Fx { x: -20_772_540i64, y: 1_122_184_900i64, z: -113_069_690i64 },
                position_valid: true,
                position_tracked: true,
                orientation: QuatFx { x: -343_244_730i64, y: -725_230_200i64, z: 593_698_860i64, w: -61_205_940i64 },
                orientation_valid: true,
                orientation_tracked: true,
                radius: 5_698_341i64,
            },
        ],
    }
}

impl NameToHandJoint {
    /// Calibration data for this joint on the given hand.
    pub fn get_joint_data(&self, hand: &Hand) -> (r: HandJoint)
        ensures
            r == spec_joint_data(*hand, spec_joint_index(*self)),
    {
        let idx = self.index();
        if *hand == Hand::Left {
            let joints = get_default_left_hand();
            joints.inner[idx]
        } else {
            let joints = get_default_right_hand();
            joints.inner[idx]
        }
    }
}

/// The calibration poses of the two joints bounding a bone, or `None` for a
/// bone with no physical extent.
pub open spec fn spec_start_and_end_joints(bone: PhysicsHandBone, hand: Hand)
    -> Option<(HandJoint, HandJoint)> {
    match spec_bone_span(bone) {
        None => None,
        Some(pair) => Some((
            spec_joint_data(hand, spec_joint_index(pair.0)),
            spec_joint_data(hand, spec_joint_index(pair.1)),
        )),
    }
}

/// The calibration poses of the two joints bounding a bone, or `None` for a
/// bone with no physical extent.
pub fn get_start_and_end_joints(bone: &PhysicsHandBone, hand: &Hand)
    -> (r: Option<(HandJoint, HandJoint)>)
    ensures
        r == spec_start_and_end_joints(*bone, *hand),
{
    match bone_span(bone) {
        None => None,
        Some((start, end)) => {
            let joint_one = start.get_joint_data(hand);
            let joint_two = end.get_joint_data(hand);
            Some((joint_one, joint_two))
        }
    }
}

} // verus!
