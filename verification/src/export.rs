//! What the exports of a log are made of: the columns of the CSV export,
//! and the images of the log that are its moment pictures.
use vstd::prelude::*;

use crate::record::{Record, RecordView};
use crate::stream::record_views;
use crate::utils::{decimal, push_decimal};

verus! {

/// Leading CSV columns, part 1.
pub open spec fn leading_part0() -> Seq<Seq<char>> {
    seq!["CUSTOM.dateTime"@, "OSD.flyTime"@, "OSD.latitude"@, "OSD.longitude"@, "OSD.height"@, "OSD.heightMax"@, "OSD.vpsHeight"@, "OSD.altitude"@, "OSD.xSpeed"@, "OSD.xSpeedMax"@, "OSD.ySpeed"@, "OSD.ySpeedMax"@]
}

/// Leading CSV columns, part 2.
pub open spec fn leading_part1() -> Seq<Seq<char>> {
    seq!["OSD.zSpeed"@, "OSD.zSpeedMax"@, "OSD.pitch"@, "OSD.roll"@, "OSD.yaw"@, "OSD.flycState"@, "OSD.flycCommand"@, "OSD.flightAction"@, "OSD.isGPSUsed"@, "OSD.nonGPSCause"@, "OSD.gpsNum"@, "OSD.gpsLevel"@]
}

/// Leading CSV columns, part 3.
pub open spec fn leading_part2() -> Seq<Seq<char>> {
    seq!["OSD.droneType"@, "OSD.isSwaveWork"@, "OSD.waveError"@, "OSD.goHomeStatus"@, "OSD.batteryType"@, "OSD.isOnGround"@, "OSD.isMotorOn"@, "OSD.isMotorBlocked"@, "OSD.motorStartFailedCause"@, "OSD.isImuPreheated"@, "OSD.imuInitFailReason"@, "OSD.isAcceleratorOverRange"@]
}

/// Leading CSV columns, part 4.
pub open spec fn leading_part3() -> Seq<Seq<char>> {
    seq!["OSD.isBarometerDeadInAir"@, "OSD.isCompassError"@, "OSD.isGoHomeHeightModified"@, "OSD.canIOCWork"@, "OSD.isNotEnoughForce"@, "OSD.isOutOfLimit"@, "OSD.isPropellerCatapult"@, "OSD.isVibrating"@, "OSD.isVisionUsed"@, "OSD.voltageWarning"@, "GIMBAL.mode"@, "GIMBAL.pitch"@]
}

/// Leading CSV columns, part 5.
pub open spec fn leading_part4() -> Seq<Seq<char>> {
    seq!["GIMBAL.roll"@, "GIMBAL.yaw"@, "GIMBAL.isPitchAtLimit"@, "GIMBAL.isRollAtLimit"@, "GIMBAL.isYawAtLimit"@, "GIMBAL.isStuck"@, "CAMERA.isPhoto"@, "CAMERA.isVideo"@, "CAMERA.sdCardIsInserted"@, "CAMERA.sdCardState"@, "RC.downlinkSignal"@, "RC.uplinkSignal"@]
}

/// Leading CSV columns, part 6.
pub open spec fn leading_part5() -> Seq<Seq<char>> {
    seq!["RC.aileron"@, "RC.elevator"@, "RC.throttle"@, "RC.rudder"@, "BATTERY.chargeLevel"@, "BATTERY.voltage"@, "BATTERY.current"@, "BATTERY.currentCapacity"@, "BATTERY.fullCapacity"@, "BATTERY.cellNum"@, "BATTERY.isCellVoltageEstimated"@]
}

/// Trailing CSV columns, part 1.
pub open spec fn trailing_part0() -> Seq<Seq<char>> {
    seq!["BATTERY.cellVoltageDeviation"@, "BATTERY.maxCellVoltageDeviation"@, "BATTERY.temperature"@, "BATTERY.minTemperature"@, "BATTERY.maxTemperature"@, "HOME.latitude"@, "HOME.longitude"@, "HOME.altitude"@, "HOME.heightLimit"@, "HOME.isHomeRecord"@, "HOME.goHomeMode"@, "HOME.isDynamicHomePointEnabled"@]
}

/// Trailing CSV columns, part 2.
pub open spec fn trailing_part1() -> Seq<Seq<char>> {
    seq!["HOME.isNearDistanceLimit"@, "HOME.isNearHeightLimit"@, "HOME.isCompassCalibrating"@, "HOME.compassCalibrationState"@, "HOME.isMultipleModeEnabled"@, "HOME.isBeginnerMode"@, "HOME.isIOCEnabled"@, "HOME.IOCMode"@, "HOME.goHomeHeight"@, "HOME.IOCCourseLockAngle"@, "HOME.maxAllowedHeight"@, "HOME.currentFlightRecordIndex"@]
}

/// Trailing CSV columns, part 3.
pub open spec fn trailing_part2() -> Seq<Seq<char>> {
    seq!["RECOVER.appPlatform"@, "RECOVER.appVersion"@, "RECOVER.aircraftName"@, "RECOVER.aircraftSerial"@, "RECOVER.cameraSerial"@, "RECOVER.rcSerial"@, "RECOVER.batterySerial"@, "APP.tip"@, "APP.warn"@, "DETAILS.totalTime"@, "DETAILS.totalDistance"@, "DETAILS.maxHeight"@]
}

/// Trailing CSV columns, part 4.
pub open spec fn trailing_part3() -> Seq<Seq<char>> {
    seq!["DETAILS.maxHorizontalSpeed"@, "DETAILS.maxVerticalSpeed"@, "DETAILS.photoNum"@, "DETAILS.videoTime"@, "DETAILS.aircraftName"@, "DETAILS.aircraftSerial"@, "DETAILS.cameraSerial"@, "DETAILS.rcSerial"@, "DETAILS.appPlatform"@, "DETAILS.appVersion"@]
}

/// The CSV columns before the cell voltages.
pub open spec fn leading_headers() -> Seq<Seq<char>> {
    leading_part0() + leading_part1() + leading_part2() + leading_part3() + leading_part4() + leading_part5()
}

/// The CSV columns after the cell voltages.
pub open spec fn trailing_headers() -> Seq<Seq<char>> {
    trailing_part0() + trailing_part1() + trailing_part2() + trailing_part3()
}

/// The CSV column of the voltage of cell `n` (counted from 1).
pub open spec fn cell_header(n: nat) -> Seq<char> {
    "BATTERY.cellVoltage"@ + decimal(n)
}

/// The CSV columns of a frame whose battery has `cell_num` cells: the
/// leading columns, one voltage column per cell, the trailing columns.
pub open spec fn spec_headers(cell_num: u8) -> Seq<Seq<char>> {
    leading_headers() + Seq::new(cell_num as nat, |i: int| cell_header((i + 1) as nat))
        + trailing_headers()
}

/// The shape of the CSV header row: 71 leading columns, from
/// `CUSTOM.dateTime` to `BATTERY.isCellVoltageEstimated`, then
/// `BATTERY.cellVoltage1` to `BATTERY.cellVoltage<n>` for the `n` cells,
/// then 46 trailing columns, from `BATTERY.cellVoltageDeviation` to
/// `DETAILS.appVersion`.
pub proof fn lemma_headers_shape(cell_num: u8)
    ensures
        spec_headers(cell_num).len() == 117 + cell_num,
        spec_headers(cell_num)[0] == "CUSTOM.dateTime"@,
        spec_headers(cell_num)[70] == "BATTERY.isCellVoltageEstimated"@,
        forall|i: int|
            0 <= i < cell_num ==> #[trigger] spec_headers(cell_num)[71 + i] == "BATTERY.cellVoltage"@
                + decimal((i + 1) as nat),
        spec_headers(cell_num)[71 + cell_num] == "BATTERY.cellVoltageDeviation"@,
        spec_headers(cell_num)[116 + cell_num] == "DETAILS.appVersion"@,
{
    let h = spec_headers(cell_num);
    let lead = leading_headers();
    let cells = Seq::new(cell_num as nat, |i: int| cell_header((i + 1) as nat));
    let trail = trailing_headers();
    assert(lead.len() == 71);
    assert(trail.len() == 46);
    assert(h[0] == lead[0]);
    assert(h[70] == lead[70]);
    assert forall|i: int| 0 <= i < cell_num implies #[trigger] h[71 + i] == "BATTERY.cellVoltage"@
        + decimal((i + 1) as nat) by {
        assert(h[71 + i] == cells[i]);
    }
    assert(h[71 + cell_num] == trail[0]);
    assert(h[116 + cell_num] == trail[45]);
}

/// The moment pictures found are the pictures 0, 1, 2, ... in turn, at most
/// four, each an image record whose size (truncated to 32 bits) is the size
/// that the details give for that picture, in the order of the records.
pub proof fn lemma_moment_pictures_match(recs: Seq<RecordView>, lens: Seq<i32>)
    requires
        lens.len() == 4,
    ensures
        spec_moment_pictures(recs, lens).len() <= 4,
        forall|j: int|
            0 <= j < spec_moment_pictures(recs, lens).len() ==> {
                let (k, r) = #[trigger] spec_moment_pictures(recs, lens)[j];
                &&& k == j
                &&& r < recs.len()
                &&& recs[r as int] matches RecordView::JPEG(data) && data.len() as i32 == lens[j]
            },
        forall|i: int, j: int|
            0 <= i < j < spec_moment_pictures(recs, lens).len() ==> #[trigger] spec_moment_pictures(
                recs,
                lens,
            )[i].1 < #[trigger] spec_moment_pictures(recs, lens)[j].1,
    decreases recs.len(),
{
    if recs.len() > 0 {
        lemma_moment_pictures_match(recs.drop_last(), lens);
        let found = spec_moment_pictures(recs.drop_last(), lens);
        let all = spec_moment_pictures(recs, lens);
        assert forall|j: int| 0 <= j < found.len() implies recs[found[j].1 as int]
            == recs.drop_last()[found[j].1 as int] by {}
        if all.len() > found.len() {
            assert(all == found.push((found.len(), (recs.len() - 1) as nat)));
        } else {
            assert(all == found);
        }
    }
}

/// Appends `items` to `out`.
fn push_all(out: &mut Vec<String>, items: &[&str])
    ensures
        final(out)@.map_values(|s: String| s@) == old(out)@.map_values(|s: String| s@)
            + items@.map_values(|s: &str| s@),
{
    let mut i: usize = 0;
    while i < items.len()
        invariant
            i <= items@.len(),
            out@.map_values(|s: String| s@) == old(out)@.map_values(|s: String| s@)
                + items@.subrange(0, i as int).map_values(|s: &str| s@),
        decreases items.len() - i,
    {
        let ghost before = out@;
        out.push(items[i].to_string());
        proof {
            assert(out@.map_values(|s: String| s@) =~= before.map_values(|s: String| s@).push(
                items@[i as int]@,
            ));
            assert(items@.subrange(0, i + 1).map_values(|s: &str| s@) =~= items@.subrange(
                0,
                i as int,
            ).map_values(|s: &str| s@).push(items@[i as int]@));
        }
        i = i + 1;
    }
    assert(items@.subrange(0, i as int) =~= items@);
}

/// Appends leading CSV columns, part 1.
fn push_leading_part0(out: &mut Vec<String>)
    ensures
        final(out)@.map_values(|s: String| s@) == old(out)@.map_values(|s: String| s@)
            + leading_part0(),
{
    let items: &[&str] = &["CUSTOM.dateTime", "OSD.flyTime", "OSD.latitude", "OSD.longitude", "OSD.height", "OSD.heightMax", "OSD.vpsHeight", "OSD.altitude", "OSD.xSpeed", "OSD.xSpeedMax", "OSD.ySpeed", "OSD.ySpeedMax"];
    push_all(out, items);
    assert(items@.map_values(|s: &str| s@) =~= leading_part0());
}

/// Appends leading CSV columns, part 2.
fn push_leading_part1(out: &mut Vec<String>)
    ensures
        final(out)@.map_values(|s: String| s@) == old(out)@.map_values(|s: String| s@)
            + leading_part1(),
{
    let items: &[&str] = &["OSD.zSpeed", "OSD.zSpeedMax", "OSD.pitch", "OSD.roll", "OSD.yaw", "OSD.flycState", "OSD.flycCommand", "OSD.flightAction", "OSD.isGPSUsed", "OSD.nonGPSCause", "OSD.gpsNum", "OSD.gpsLevel"];
    push_all(out, items);
    assert(items@.map_values(|s: &str| s@) =~= leading_part1());
}

/// Appends leading CSV columns, part 3.
fn push_leading_part2(out: &mut Vec<String>)
    ensures
        final(out)@.map_values(|s: String| s@) == old(out)@.map_values(|s: String| s@)
            + leading_part2(),
{
    let items: &[&str] = &["OSD.droneType", "OSD.isSwaveWork", "OSD.waveError", "OSD.goHomeStatus", "OSD.batteryType", "OSD.isOnGround", "OSD.isMotorOn", "OSD.isMotorBlocked", "OSD.motorStartFailedCause", "OSD.isImuPreheated", "OSD.imuInitFailReason", "OSD.isAcceleratorOverRange"];
    push_all(out, items);
    assert(items@.map_values(|s: &str| s@) =~= leading_part2());
}

/// Appends leading CSV columns, part 4.
fn push_leading_part3(out: &mut Vec<String>)
    ensures
        final(out)@.map_values(|s: String| s@) == old(out)@.map_values(|s: String| s@)
            + leading_part3(),
{
    let items: &[&str] = &["OSD.isBarometerDeadInAir", "OSD.isCompassError", "OSD.isGoHomeHeightModified", "OSD.canIOCWork", "OSD.isNotEnoughForce", "OSD.isOutOfLimit", "OSD.isPropellerCatapult", "OSD.isVibrating", "OSD.isVisionUsed", "OSD.voltageWarning", "GIMBAL.mode", "GIMBAL.pitch"];
    push_all(out, items);
    assert(items@.map_values(|s: &str| s@) =~= leading_part3());
}

/// Appends leading CSV columns, part 5.
fn push_leading_part4(out: &mut Vec<String>)
    ensures
        final(out)@.map_values(|s: String| s@) == old(out)@.map_values(|s: String| s@)
            + leading_part4(),
{
    let items: &[&str] = &["GIMBAL.roll", "GIMBAL.yaw", "GIMBAL.isPitchAtLimit", "GIMBAL.isRollAtLimit", "GIMBAL.isYawAtLimit", "GIMBAL.isStuck", "CAMERA.isPhoto", "CAMERA.isVideo", "CAMERA.sdCardIsInserted", "CAMERA.sdCardState", "RC.downlinkSignal", "RC.uplinkSignal"];
    push_all(out, items);
    assert(items@.map_values(|s: &str| s@) =~= leading_part4());
}

/// Appends leading CSV columns, part 6.
fn push_leading_part5(out: &mut Vec<String>)
    ensures
        final(out)@.map_values(|s: String| s@) == old(out)@.map_values(|s: String| s@)
            + leading_part5(),
{
    let items: &[&str] = &["RC.aileron", "RC.elevator", "RC.throttle", "RC.rudder", "BATTERY.chargeLevel", "BATTERY.voltage", "BATTERY.current", "BATTERY.currentCapacity", "BATTERY.fullCapacity", "BATTERY.cellNum", "BATTERY.isCellVoltageEstimated"];
    push_all(out, items);
    assert(items@.map_values(|s: &str| s@) =~= leading_part5());
}

/// Appends trailing CSV columns, part 1.
fn push_trailing_part0(out: &mut Vec<String>)
    ensures
        final(out)@.map_values(|s: String| s@) == old(out)@.map_values(|s: String| s@)
            + trailing_part0(),
{
    let items: &[&str] = &["BATTERY.cellVoltageDeviation", "BATTERY.maxCellVoltageDeviation", "BATTERY.temperature", "BATTERY.minTemperature", "BATTERY.maxTemperature", "HOME.latitude", "HOME.longitude", "HOME.altitude", "HOME.heightLimit", "HOME.isHomeRecord", "HOME.goHomeMode", "HOME.isDynamicHomePointEnabled"];
    push_all(out, items);
    assert(items@.map_values(|s: &str| s@) =~= trailing_part0());
}

/// Appends trailing CSV columns, part 2.
fn push_trailing_part1(out: &mut Vec<String>)
    ensures
        final(out)@.map_values(|s: String| s@) == old(out)@.map_values(|s: String| s@)
            + trailing_part1(),
{
    let items: &[&str] = &["HOME.isNearDistanceLimit", "HOME.isNearHeightLimit", "HOME.isCompassCalibrating", "HOME.compassCalibrationState", "HOME.isMultipleModeEnabled", "HOME.isBeginnerMode", "HOME.isIOCEnabled", "HOME.IOCMode", "HOME.goHomeHeight", "HOME.IOCCourseLockAngle", "HOME.maxAllowedHeight", "HOME.currentFlightRecordIndex"];
    push_all(out, items);
    assert(items@.map_values(|s: &str| s@) =~= trailing_part1());
}

/// Appends trailing CSV columns, part 3.
fn push_trailing_part2(out: &mut Vec<String>)
    ensures
        final(out)@.map_values(|s: String| s@) == old(out)@.map_values(|s: String| s@)
            + trailing_part2(),
{
    let items: &[&str] = &["RECOVER.appPlatform", "RECOVER.appVersion", "RECOVER.aircraftName", "RECOVER.aircraftSerial", "RECOVER.cameraSerial", "RECOVER.rcSerial", "RECOVER.batterySerial", "APP.tip", "APP.warn", "DETAILS.totalTime", "DETAILS.totalDistance", "DETAILS.maxHeight"];
    push_all(out, items);
    assert(items@.map_values(|s: &str| s@) =~= trailing_part2());
}

/// Appends trailing CSV columns, part 4.
fn push_trailing_part3(out: &mut Vec<String>)
    ensures
        final(out)@.map_values(|s: String| s@) == old(out)@.map_values(|s: String| s@)
            + trailing_part3(),
{
    let items: &[&str] = &["DETAILS.maxHorizontalSpeed", "DETAILS.maxVerticalSpeed", "DETAILS.photoNum", "DETAILS.videoTime", "DETAILS.aircraftName", "DETAILS.aircraftSerial", "DETAILS.cameraSerial", "DETAILS.rcSerial", "DETAILS.appPlatform", "DETAILS.appVersion"];
    push_all(out, items);
    assert(items@.map_values(|s: &str| s@) =~= trailing_part3());
}

/// The CSV columns (see `spec_headers`).
pub fn get_headers(cell_num: u8) -> (r: Vec<String>)
    ensures
        r@.map_values(|s: String| s@) == spec_headers(cell_num),
{
    let mut out: Vec<String> = Vec::new();
    push_leading_part0(&mut out);
    push_leading_part1(&mut out);
    push_leading_part2(&mut out);
    push_leading_part3(&mut out);
    push_leading_part4(&mut out);
    push_leading_part5(&mut out);
    proof {
        assert(out@.map_values(|s: String| s@) =~= leading_headers());
    }
    let mut i: u8 = 0;
    while i < cell_num
        invariant
            i <= cell_num,
            out@.map_values(|s: String| s@) == leading_headers() + Seq::new(
                i as nat,
                |k: int| cell_header((k + 1) as nat),
            ),
        decreases cell_num - i,
    {
        let ghost before = out@;
        let mut h = "BATTERY.cellVoltage".to_string();
        push_decimal(&mut h, i + 1);
        out.push(h);
        proof {
            assert(out@.map_values(|s: String| s@) =~= before.map_values(|s: String| s@).push(
                cell_header((i + 1) as nat),
            ));
            assert(Seq::new((i + 1) as nat, |k: int| cell_header((k + 1) as nat)) =~= Seq::new(
                i as nat,
                |k: int| cell_header((k + 1) as nat),
            ).push(cell_header((i + 1) as nat)));
        }
        i = i + 1;
    }
    let ghost middle = out@;
    push_trailing_part0(&mut out);
    push_trailing_part1(&mut out);
    push_trailing_part2(&mut out);
    push_trailing_part3(&mut out);
    proof {
        let t = out@.map_values(|s: String| s@);
        assert(t.subrange(0, middle.len() as int) =~= middle.map_values(|s: String| s@));
        assert(t.subrange(middle.len() as int, t.len() as int) =~= trailing_headers());
        assert(t =~= middle.map_values(|s: String| s@) + trailing_headers());
    }
    out
}

/// The moment pictures among the records: each image whose size is that of
/// the next of the four pictures that the details announce (`lens`, compared
/// with the size truncated to 32 bits) is that
/// picture, given as (picture index, record index). Later images are
/// matched against the picture after the last one found.
pub open spec fn spec_moment_pictures(recs: Seq<RecordView>, lens: Seq<i32>) -> Seq<(nat, nat)>
    decreases recs.len(),
{
    if recs.len() == 0 {
        Seq::empty()
    } else {
        let found = spec_moment_pictures(recs.drop_last(), lens);
        let index = found.len();
        match recs.last() {
            RecordView::JPEG(data) => if index < 4 && lens[index as int] == data.len() as i32 {
                found.push((index, (recs.len() - 1) as nat))
            } else {
                found
            },
            _ => found,
        }
    }
}

/// Finds the moment pictures among the records (see `spec_moment_pictures`).
pub fn moment_pictures(records: &Vec<Record>, lens: &[i32; 4]) -> (r: Vec<(usize, usize)>)
    ensures
        r@.map_values(|p: (usize, usize)| (p.0 as nat, p.1 as nat)) == spec_moment_pictures(
            record_views(records@),
            lens@,
        ),
{
    let mut out: Vec<(usize, usize)> = Vec::new();
    let mut i: usize = 0;
    proof {
        assert(record_views(records@).take(0) =~= Seq::<RecordView>::empty());
        assert(out@.map_values(|p: (usize, usize)| (p.0 as nat, p.1 as nat)) =~= Seq::<
            (nat, nat),
        >::empty());
    }
    while i < records.len()
        invariant
            i <= records@.len(),
            out@.len() <= 4,
            out@.map_values(|p: (usize, usize)| (p.0 as nat, p.1 as nat)) == spec_moment_pictures(
                record_views(records@).take(i as int),
                lens@,
            ),
        decreases records.len() - i,
    {
        proof {
            let t = record_views(records@).take(i + 1);
            assert(t.drop_last() =~= record_views(records@).take(i as int));
            assert(t.last() == records@[i as int]@);
            assert(t.len() == i + 1);
        }
        let index = out.len();
        let ghost before = out@;
        match &records[i] {
            Record::JPEG(data) => {
                if index < 4 && lens[index] == data.len() as i32 {
                    out.push((index, i));
                    proof {
                        assert(out@.map_values(|p: (usize, usize)| (p.0 as nat, p.1 as nat))
                            =~= before.map_values(|p: (usize, usize)| (p.0 as nat, p.1 as nat)).push(
                            (index as nat, i as nat),
                        ));
                    }
                }
            },
            _ => {},
        }
        i = i + 1;
    }
    proof {
        assert(record_views(records@).take(i as int) =~= record_views(records@));
    }
    out
}

} // verus!
