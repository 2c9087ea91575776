//! Board bring-up decisions: which devices the I2C bus scan found.

use vstd::prelude::*;
use crate::touch::{GT911_DEFAULT_ADDR, GT911_ALT_ADDR};

verus! {

/// I2C address of the NAU7802 load-cell ADC (SparkFun Qwiic Scale).
pub const NAU7802_ADDR: u8 = 0x2A;

/// First address probed by the bus scan.
pub const I2C_SCAN_FIRST: u8 = 0x08;

/// One past the last address probed by the bus scan.
pub const I2C_SCAN_END: u8 = 0x78;

/// Devices found on the I2C bus.
#[derive(Debug, Clone, Copy, PartialEq, Eq, Structural)]
pub struct I2cDevices {
    /// Address to talk to the GT911 touch controller at.
    pub gt911_addr: u8,
    /// Whether a NAU7802 scale answered.
    pub nau7802_found: bool,
}

/// The address answers as a GT911 touch controller.
pub open spec fn is_gt911_addr(addr: u8) -> bool {
    addr == GT911_DEFAULT_ADDR || addr == GT911_ALT_ADDR
}

/// GT911 address after the scan saw the first `n` answering addresses: the
/// last GT911 address among them, the default address when none.
pub open spec fn scanned_gt911(found: Seq<u8>, n: nat) -> u8
    decreases n,
{
    if n == 0 {
        GT911_DEFAULT_ADDR
    } else if is_gt911_addr(found[n - 1]) {
        found[n - 1]
    } else {
        scanned_gt911(found, (n - 1) as nat)
    }
}

/// Devices recognised among the answering addresses, in scan order.
pub open spec fn scan_result(found: Seq<u8>) -> I2cDevices {
    I2cDevices { gt911_addr: scanned_gt911(found, found.len()), nau7802_found: found.contains(NAU7802_ADDR) }
}

/// Recognises the devices among the addresses that answered the bus scan
/// (in scan order).
pub fn classify_i2c_devices(found: &[u8]) -> (devices: I2cDevices)
    ensures
        devices == scan_result(found@),
{
    let mut gt911_addr: u8 = GT911_DEFAULT_ADDR;
    let mut nau7802_found = false;
    let mut i: usize = 0;
    while i < found.len()
        invariant
            i <= found@.len(),
            gt911_addr == scanned_gt911(found@, i as nat),
            nau7802_found == found@.subrange(0, i as int).contains(NAU7802_ADDR),
        decreases found@.len() - i,
    {
        let addr = found[i];
        if addr == GT911_DEFAULT_ADDR || addr == GT911_ALT_ADDR {
            gt911_addr = addr;
        }
        if addr == NAU7802_ADDR {
            nau7802_found = true;
        }
        proof {
            let pre = found@.subrange(0, i as int);
            let post = found@.subrange(0, i + 1);
            assert(post =~= pre.push(addr));
            if pre.contains(NAU7802_ADDR) {
                let k = choose|k: int| 0 <= k < pre.len() && pre[k] == NAU7802_ADDR;
                assert(post[k] == NAU7802_ADDR);
            }
            if post.contains(NAU7802_ADDR) && addr != NAU7802_ADDR {
                let k = choose|k: int| 0 <= k < post.len() && post[k] == NAU7802_ADDR;
                assert(pre[k] == NAU7802_ADDR);
            }
            if addr == NAU7802_ADDR {
                assert(post[i as int] == NAU7802_ADDR);
            }
        }
        i = i + 1;
    }
    assert(found@.subrange(0, found@.len() as int) =~= found@);
    I2cDevices { gt911_addr, nau7802_found }
}

/// The touch controller address the scan settles on is always one of the
/// two GT911 addresses.
pub proof fn lemma_gt911_addr_valid(found: Seq<u8>, n: nat)
    requires
        n <= found.len(),
    ensures
        is_gt911_addr(scanned_gt911(found, n)),
    decreases n,
{
    if n > 0 {
        lemma_gt911_addr_valid(found, (n - 1) as nat);
    }
}

/// Work of one pass of the main loop (one pass every 10 ms).
#[derive(Debug, Clone, Copy, PartialEq, Eq, Structural)]
pub struct LoopTasks {
    /// Log the pass (first five passes only).
    pub log_pass: bool,
    /// Log the touch position when a touch is read.
    pub log_touch: bool,
    /// Read the scale (every 5th pass, about 50 ms).
    pub read_scale: bool,
    /// Refresh the weight label after a good reading (about 500 ms).
    pub update_weight_label: bool,
    /// Log the weight after a good reading (about 2.5 s).
    pub log_weight: bool,
    /// Log a failed reading (about 5 s).
    pub log_scale_error: bool,
}

/// The work of pass `loop_count` (counted from 1).
pub open spec fn tasks_of(loop_count: u32) -> LoopTasks {
    LoopTasks {
        log_pass: loop_count <= 5,
        log_touch: loop_count % 50 == 0,
        read_scale: loop_count % 5 == 0,
        update_weight_label: loop_count % 50 == 0,
        log_weight: loop_count % 250 == 0,
        log_scale_error: loop_count % 500 == 0,
    }
}

/// The work of pass `loop_count` of the main loop.
pub fn loop_tasks(loop_count: u32) -> (tasks: LoopTasks)
    ensures
        tasks == tasks_of(loop_count),
{
    LoopTasks {
        log_pass: loop_count <= 5,
        log_touch: loop_count % 50 == 0,
        read_scale: loop_count % 5 == 0,
        update_weight_label: loop_count % 50 == 0,
        log_weight: loop_count % 250 == 0,
        log_scale_error: loop_count % 500 == 0,
    }
}

/// The weight label and the weight and error logs only come on passes that
/// read the scale.
pub proof fn lemma_scale_work_only_on_reads(loop_count: u32)
    ensures
        tasks_of(loop_count).update_weight_label ==> tasks_of(loop_count).read_scale,
        tasks_of(loop_count).log_weight ==> tasks_of(loop_count).read_scale,
        tasks_of(loop_count).log_scale_error ==> tasks_of(loop_count).read_scale,
{
}

} // verus!
