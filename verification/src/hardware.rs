//! The hardware profile that scoring reads, and the parsers that build it from what the
//! system reports.
use vstd::prelude::*;

verus! {

/// One display as the compositor reports it.
///
/// `refresh_rate_tenths` is the refresh rate in tenths of a hertz (the reported rate is
/// rounded to one decimal place); `scale_bits` carries the reported scale factor as the
/// bit pattern of an IEEE-754 double, which this library never interprets.
pub struct MonitorInfo {
    pub name: String,
    pub width: u32,
    pub height: u32,
    pub refresh_rate_tenths: u32,
    pub scale_bits: u64,
}

/// The detected hardware.
///
/// `cpu_mhz` is the highest reported clock in whole MHz (rounded down, except that a
/// positive clock below 1 MHz counts as 1), which scoring reads; `cpu_mhz_bits` is that
/// clock as reported, as the bit pattern of an IEEE-754 double, which this library never
/// interprets; `ram_total_gb_tenths` is the memory size in tenths of a GiB, rounded half
/// up.
pub struct HardwareInfo {
    pub cpu_name: String,
    pub cpu_cores: usize,
    pub cpu_threads: usize,
    pub cpu_mhz: u64,
    pub cpu_mhz_bits: u64,
    pub ram_total_mb: u64,
    pub ram_total_gb_tenths: u64,
    pub ram_type: String,
    pub ram_speed_mts: u32,
    pub ram_modules: usize,
    pub ram_slots: usize,
    pub mobo_vendor: String,
    pub mobo_name: String,
    pub mobo_bios: String,
    pub chipset: String,
    pub gpu_name: String,
    pub gpu_driver: String,
    pub monitors: Vec<MonitorInfo>,
    pub storage_type: String,
    pub storage_model: String,
    pub os_name: String,
}

impl Clone for MonitorInfo {
    fn clone(&self) -> (r: Self)
        ensures
            r == *self,
    {
        MonitorInfo {
            name: self.name.clone(),
            width: self.width,
            height: self.height,
            refresh_rate_tenths: self.refresh_rate_tenths,
            scale_bits: self.scale_bits,
        }
    }
}

/// A copy of a list of monitors.
pub fn clone_monitors(ms: &Vec<MonitorInfo>) -> (r: Vec<MonitorInfo>)
    ensures
        r@ == ms@,
{
    let mut r: Vec<MonitorInfo> = Vec::new();
    let mut i: usize = 0;
    while i < ms.len()
        invariant
            0 <= i <= ms@.len(),
            r@ == ms@.take(i as int),
        decreases ms@.len() - i,
    {
        r.push(ms[i].clone());
        assert(ms@.take(i as int).push(ms@[i as int]) =~= ms@.take(i + 1));
        i += 1;
    }
    assert(ms@.take(ms@.len() as int) =~= ms@);
    r
}

/// Whether two profiles hold the same values, the monitor lists compared element by element.
pub open spec fn same_hardware(a: HardwareInfo, b: HardwareInfo) -> bool {
    &&& a.cpu_name == b.cpu_name
    &&& a.cpu_cores == b.cpu_cores
    &&& a.cpu_threads == b.cpu_threads
    &&& a.cpu_mhz == b.cpu_mhz
    &&& a.cpu_mhz_bits == b.cpu_mhz_bits
    &&& a.ram_total_mb == b.ram_total_mb
    &&& a.ram_total_gb_tenths == b.ram_total_gb_tenths
    &&& a.ram_type == b.ram_type
    &&& a.ram_speed_mts == b.ram_speed_mts
    &&& a.ram_modules == b.ram_modules
    &&& a.ram_slots == b.ram_slots
    &&& a.mobo_vendor == b.mobo_vendor
    &&& a.mobo_name == b.mobo_name
    &&& a.mobo_bios == b.mobo_bios
    &&& a.chipset == b.chipset
    &&& a.gpu_name == b.gpu_name
    &&& a.gpu_driver == b.gpu_driver
    &&& a.monitors@ == b.monitors@
    &&& a.storage_type == b.storage_type
    &&& a.storage_model == b.storage_model
    &&& a.os_name == b.os_name
}

impl Clone for HardwareInfo {
    fn clone(&self) -> (r: Self)
        ensures
            same_hardware(r, *self),
    {
        let monitors = clone_monitors(&self.monitors);
        HardwareInfo {
            cpu_name: self.cpu_name.clone(),
            cpu_cores: self.cpu_cores,
            cpu_threads: self.cpu_threads,
            cpu_mhz: self.cpu_mhz,
            cpu_mhz_bits: self.cpu_mhz_bits,
            ram_total_mb: self.ram_total_mb,
            ram_total_gb_tenths: self.ram_total_gb_tenths,
            ram_type: self.ram_type.clone(),
            ram_speed_mts: self.ram_speed_mts,
            ram_modules: self.ram_modules,
            ram_slots: self.ram_slots,
            mobo_vendor: self.mobo_vendor.clone(),
            mobo_name: self.mobo_name.clone(),
            mobo_bios: self.mobo_bios.clone(),
            chipset: self.chipset.clone(),
            gpu_name: self.gpu_name.clone(),
            gpu_driver: self.gpu_driver.clone(),
            monitors,
            storage_type: self.storage_type.clone(),
            storage_model: self.storage_model.clone(),
            os_name: self.os_name.clone(),
        }
    }
}

}
