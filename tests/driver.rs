use lsm6dso16is::register::ispu::{IspuBootLatched, IspuMemoryType};
use lsm6dso16is::register::main::{
    Ctrl3C, DataReadyMode, GyFullScale, IspuDataRate, PinInt1Route, XlDataRate, XlFullScale,
};
use lsm6dso16is::register::sensor_hub::{ShCfgRead, ShCfgWrite, ShSlaveConnected};
use lsm6dso16is::{
    program_ram_segments, BusOperation, DelayNs, Error, Lsm6dso16is, Lsm6dso16isPassthrough,
    MemBank, Trace, ID,
};

#[derive(Debug, PartialEq)]
struct Fault;

/// One transfer seen by the fake device.
#[derive(Debug, Clone, PartialEq)]
enum Op {
    Write(Vec<u8>),
    WriteRead(u8, usize),
}

/// An in-memory model of the device: three register banks, the ISPU
/// memories behind their window, and one secondary device behind the hub.
struct FakeDevice {
    banks: [[u8; 256]; 3],
    bank: usize,
    ops: Vec<Op>,
    fail_at: Option<usize>,
    mem: [Vec<u8>; 2],
    mem_ptr: usize,
    mem_fresh: bool,
    secondary: Vec<[u8; 256]>,
    sticky_reset: bool,
}

const SECONDARY_A: u8 = 0x1E;
const SECONDARY_B: u8 = 0x5D;

impl FakeDevice {
    fn new() -> Self {
        let mut banks = [[0u8; 256]; 3];
        banks[0][0x0F] = ID;
        banks[0][0x1E] = 0x07;
        banks[0][0x39] = 0x01;
        let mut secondary = vec![[0u8; 256]; 2];
        for i in 0..256 {
            secondary[0][i] = i as u8;
            secondary[1][i] = 0x80 | (i as u8);
        }
        FakeDevice {
            banks,
            bank: 0,
            ops: Vec::new(),
            fail_at: None,
            mem: [vec![0u8; 0x10000], vec![0u8; 0x10000]],
            mem_ptr: 0,
            mem_fresh: false,
            secondary,
            sticky_reset: false,
        }
    }

    fn check_fault(&mut self) -> Result<(), Fault> {
        let n = self.ops.len();
        if self.fail_at == Some(n) {
            return Err(Fault);
        }
        Ok(())
    }

    fn secondary_index(add: u8) -> usize {
        if add == SECONDARY_A {
            0
        } else {
            1
        }
    }

    /// What the hub does when the accelerometer triggers it.
    fn hub_cycle(&mut self) {
        let sh = self.banks[1];
        if sh[0x14] & 0x04 == 0 {
            return;
        }
        if sh[0x15] & 1 == 0 {
            let dev = Self::secondary_index(sh[0x15] >> 1);
            self.secondary[dev][sh[0x16] as usize] = sh[0x21];
            return;
        }
        let slots = (sh[0x14] & 0x03) as usize + 1;
        let mut out = 0x02usize;
        for slot in 0..slots {
            let base = 0x15 + 3 * slot;
            let dev = Self::secondary_index(sh[base] >> 1);
            let sub = sh[base + 1] as usize;
            let len = (sh[base + 2] & 0x07) as usize;
            for k in 0..len {
                self.banks[1][out] = self.secondary[dev][(sub + k) % 256];
                out += 1;
            }
        }
    }

    fn write_reg(&mut self, reg: u8, v: u8) {
        if reg == 0x01 {
            self.banks[0][1] = v;
            self.bank = if v & 0x40 != 0 {
                1
            } else if v & 0x80 != 0 {
                2
            } else {
                0
            };
            return;
        }
        match (self.bank, reg) {
            (0, 0x12) => self.banks[0][0x12] = if self.sticky_reset { v } else { v & !1 },
            (0, 0x10) => {
                self.banks[0][0x10] = v;
                if v >> 4 != 0 {
                    self.hub_cycle();
                }
            }
            (2, 0x09) => {
                self.banks[2][0x09] = v;
            }
            (2, 0x0A) => {
                self.banks[2][0x0A] = v;
                self.mem_ptr = self.banks[2][0x09] as usize | ((v as usize) << 8);
                self.mem_fresh = true;
            }
            (2, 0x0B) => {
                let sel = (self.banks[2][0x08] & 1) as usize;
                self.mem[sel][self.mem_ptr] = v;
                self.mem_ptr = Self::next_in_window(self.mem_ptr);
            }
            (b, r) => self.banks[b][r as usize] = v,
        }
    }

    /// The window wraps at every 8 KiB boundary.
    fn next_in_window(ptr: usize) -> usize {
        let next = ptr + 1;
        if next % 0x2000 == 0 {
            next - 0x2000
        } else {
            next
        }
    }

    fn read_reg(&mut self, reg: u8) -> u8 {
        if reg == 0x01 {
            return self.banks[0][1];
        }
        if self.bank == 2 && reg == 0x0B {
            if self.mem_fresh {
                self.mem_fresh = false;
                return 0xEE;
            }
            let sel = (self.banks[2][0x08] & 1) as usize;
            let v = self.mem[sel][self.mem_ptr];
            self.mem_ptr = Self::next_in_window(self.mem_ptr);
            return v;
        }
        self.banks[self.bank][reg as usize]
    }
}

impl BusOperation for FakeDevice {
    type Error = Fault;

    fn trace(&self) -> Trace {
        unreachable!("the transfer record exists only in proofs")
    }

    fn read_bytes(&mut self, _rbuf: &mut [u8]) -> Result<(), Fault> {
        Err(Fault)
    }

    fn write_bytes(&mut self, wbuf: &[u8]) -> Result<(), Fault> {
        self.check_fault()?;
        self.ops.push(Op::Write(wbuf.to_vec()));
        let reg = wbuf[0];
        for (i, v) in wbuf[1..].iter().enumerate() {
            let r = if self.bank == 2 && reg == 0x0B { 0x0B } else { reg.wrapping_add(i as u8) };
            self.write_reg(r, *v);
        }
        Ok(())
    }

    fn write_to_register(&mut self, reg: u8, buf: &[u8]) -> Result<(), Fault> {
        let mut frame = vec![reg];
        frame.extend_from_slice(buf);
        self.write_bytes(&frame)
    }

    fn write_byte_read_bytes(&mut self, wbuf: &[u8; 1], rbuf: &mut [u8]) -> Result<(), Fault> {
        self.check_fault()?;
        self.ops.push(Op::WriteRead(wbuf[0], rbuf.len()));
        let reg = wbuf[0];
        for i in 0..rbuf.len() {
            let r = if self.bank == 2 && reg == 0x0B { 0x0B } else { reg.wrapping_add(i as u8) };
            rbuf[i] = self.read_reg(r);
        }
        Ok(())
    }
}

struct NoDelay;

impl DelayNs for NoDelay {
    fn delay_ms(&mut self, _ms: u32) {}
}

fn sensor() -> Lsm6dso16is<FakeDevice, NoDelay> {
    Lsm6dso16is::from_bus(FakeDevice::new(), NoDelay)
}

fn bank_writes(ops: &[Op]) -> Vec<u8> {
    ops.iter()
        .filter_map(|op| match op {
            Op::Write(d) if d[0] == 0x01 => Some(d[1]),
            _ => None,
        })
        .collect()
}

#[test]
fn operate_over_bank_restores_main_after_success() {
    let mut s = sensor();
    let r = s.operate_over_bank(MemBank::SensorHubMemBank, |l| {
        l.write_to_register(0x14, &[0x04])?;
        Ok(7u8)
    });
    assert_eq!(r.unwrap(), 7);
    assert_eq!(bank_writes(&s.bus.ops), vec![0x40, 0x00]);
    assert_eq!(s.bus.bank, 0);
    assert_eq!(s.bus.banks[1][0x14], 0x04);
}

#[test]
fn operate_over_bank_restores_main_after_failure() {
    for bank in [MemBank::MainMemBank, MemBank::SensorHubMemBank, MemBank::IspuMemBank] {
        let mut s = sensor();
        let r: Result<(), _> = s.operate_over_bank(bank, |_l| Err(Error::UnexpectedValue));
        assert!(matches!(r, Err(Error::UnexpectedValue)));
        assert_eq!(*bank_writes(&s.bus.ops).last().unwrap(), 0x00);
        assert_eq!(s.bus.bank, 0);
        assert_eq!(s.mem_bank_get().unwrap(), MemBank::MainMemBank);
    }
}

#[test]
fn operate_over_bank_reports_failed_selection() {
    let mut s = sensor();
    s.bus.fail_at = Some(0);
    let r: Result<(), _> = s.operate_over_bank(MemBank::IspuMemBank, |_l| Ok(()));
    assert!(matches!(r, Err(Error::FailedToSetMemBank(MemBank::IspuMemBank))));
    assert!(s.bus.ops.is_empty());
}

#[test]
fn inner_failure_wins_over_failed_restore() {
    let mut s = sensor();
    // The selection goes through; the read and then the return to the main
    // bank both fail: the read's error comes back.
    s.bus.fail_at = Some(1);
    let r = s.sh_master_get();
    assert!(matches!(r, Err(Error::Bus(Fault))));
    assert_eq!(bank_writes(&s.bus.ops), vec![0x40]);
    assert_eq!(s.bus.bank, 1);
}

#[test]
fn mem_bank_set_and_get() {
    let mut s = sensor();
    s.mem_bank_set(MemBank::IspuMemBank).unwrap();
    assert_eq!(s.bus.ops, vec![Op::Write(vec![0x01, 0x80])]);
    assert_eq!(s.mem_bank_get().unwrap(), MemBank::IspuMemBank);
    s.mem_bank_set(MemBank::SensorHubMemBank).unwrap();
    assert_eq!(s.mem_bank_get().unwrap(), MemBank::SensorHubMemBank);
    s.bus.fail_at = Some(s.bus.ops.len());
    assert!(matches!(s.mem_bank_get(), Err(Error::FailedToReadMemBank)));
}

#[test]
fn program_ram_segments_split_at_boundaries() {
    assert_eq!(program_ram_segments(0x1FFE, 4), vec![(0x1FFE, 2), (0x2000, 2)]);
    assert_eq!(program_ram_segments(0x2000, 3), vec![(0x2000, 3)]);
    assert_eq!(program_ram_segments(0x0100, 0), Vec::<(u16, u16)>::new());
    assert_eq!(
        program_ram_segments(0x1000, 0x6000),
        vec![(0x1000, 0x1000), (0x2000, 0x2000), (0x4000, 0x2000), (0x6000, 0x1000)]
    );
    assert_eq!(program_ram_segments(0x6000, 0x100), vec![(0x6000, 0x100)]);
}

#[test]
fn program_ram_segments_cover_range_in_order() {
    for &(addr, len) in &[(0x1FF0u16, 0x30u16), (0x3FFF, 2), (0x0000, 0x7000), (0x5FFF, 0x2001)] {
        let segs = program_ram_segments(addr, len);
        let mut next = addr as u32;
        for &(start, l) in &segs {
            assert_eq!(start as u32, next);
            assert!(l > 0);
            for b in [0x2000u32, 0x4000, 0x6000] {
                assert!(start as u32 >= b || start as u32 + l as u32 <= b);
            }
            next += l as u32;
        }
        assert_eq!(next, addr as u32 + len as u32);
    }
}

#[test]
fn ispu_write_memory_program_ram_across_boundary() {
    let mut s = sensor();
    s.bus.banks[2][0x02] = 0x10;
    let data: Vec<u8> = (0..8u8).map(|i| 0xA0 + i).collect();
    s.ispu_write_memory(IspuMemoryType::ProgramRamMemory, 0x1FFC, &data, 8).unwrap();
    assert_eq!(&s.bus.mem[1][0x1FFC..0x2004], &data[..]);
    // Clock restored as it was, main bank selected again.
    assert_eq!(s.bus.banks[2][0x02], 0x10);
    assert_eq!(s.bus.bank, 0);
    let addr_writes: Vec<Vec<u8>> = s
        .bus
        .ops
        .iter()
        .filter_map(|op| match op {
            Op::Write(d) if d[0] == 0x09 => Some(d.clone()),
            _ => None,
        })
        .collect();
    assert_eq!(addr_writes, vec![vec![0x09, 0xFC, 0x1F], vec![0x09, 0x00, 0x20]]);
}

#[test]
fn ispu_write_memory_data_ram_single_run() {
    let mut s = sensor();
    let data = [1u8, 2, 3, 4, 5];
    s.ispu_write_memory(IspuMemoryType::DataRamMemory, 0x0010, &data, 3).unwrap();
    assert_eq!(&s.bus.mem[0][0x10..0x13], &[1, 2, 3]);
    assert_eq!(s.bus.mem[0][0x13], 0);
}

#[test]
fn ispu_write_memory_zero_length_writes_no_data() {
    let mut s = sensor();
    s.ispu_write_memory(IspuMemoryType::ProgramRamMemory, 0x2000, &[], 0).unwrap();
    assert!(!s.bus.ops.iter().any(|op| matches!(op, Op::Write(d) if d[0] == 0x0B || d[0] == 0x09)));
}

#[test]
fn ispu_read_memory_reads_back() {
    let mut s = sensor();
    for i in 0..4 {
        s.bus.mem[0][0x40 + i] = 0x30 + i as u8;
    }
    let mut out = [0xFFu8; 6];
    s.ispu_read_memory(IspuMemoryType::DataRamMemory, 0x40, &mut out, 4).unwrap();
    assert_eq!(out, [0x30, 0x31, 0x32, 0x33, 0xFF, 0xFF]);
    assert_eq!(s.bus.bank, 0);
}

#[test]
fn register_round_trip_keeps_other_fields() {
    let mut r = Ctrl3C::from_bits(0b1010_0101);
    r.set_bdu(1);
    assert_eq!(r.bdu(), 1);
    assert_eq!(r.into_bits(), 0b1110_0101);
    r.set_bdu(0);
    assert_eq!(r.into_bits(), 0b1010_0101);
    assert_eq!(r.sw_reset(), 1);
    assert_eq!(r.boot(), 1);
}

#[test]
fn value_codes_round_trip() {
    for v in [XlDataRate::Off, XlDataRate::_26hzHp, XlDataRate::_12_5hzHp] {
        assert_eq!(XlDataRate::try_from_bits(v.bits()), Some(v));
    }
    assert_eq!(GyFullScale::_125dps.bits(), 0x10);
    assert_eq!(XlFullScale::from_bits_or_default(0xFF), XlFullScale::_2g);
    assert_eq!(IspuDataRate::_26hz.to_str(), "26hz");
}

#[test]
fn field_setters_read_modify_write() {
    let mut s = sensor();
    s.bus.banks[0][0x12] = 0x44;
    s.block_data_update_set(0).unwrap();
    assert_eq!(s.bus.banks[0][0x12], 0x04);
    assert_eq!(s.block_data_update_get().unwrap(), 0);
    s.data_ready_mode_set(DataReadyMode::Pulsed).unwrap();
    assert_eq!(s.bus.banks[0][0x0B], 0x80);
    assert_eq!(s.data_ready_mode_get().unwrap(), DataReadyMode::Pulsed);
    s.xl_full_scale_set(XlFullScale::_8g).unwrap();
    assert_eq!(s.bus.banks[0][0x10], 0x0C);
    assert_eq!(s.xl_full_scale_get().unwrap(), XlFullScale::_8g);
}

#[test]
fn data_rate_sets_odr_and_performance_mode() {
    let mut s = sensor();
    s.xl_data_rate_set(XlDataRate::_26hzHp).unwrap();
    assert_eq!(s.bus.banks[0][0x10] >> 4, 0x2);
    assert_eq!(s.bus.banks[0][0x15] & 0x10, 0);
    assert_eq!(s.xl_data_rate_get().unwrap(), XlDataRate::_26hzHp);
    s.gy_full_scale_set(GyFullScale::_125dps).unwrap();
    assert_eq!(s.bus.banks[0][0x11] & 0x0E, 0x02);
    assert_eq!(s.gy_full_scale_get().unwrap(), GyFullScale::_125dps);
}

#[test]
fn pin_route_round_trip() {
    let mut s = sensor();
    let route = PinInt1Route { drdy_xl: 1, drdy_gy: 0, boot: 1, sh_endop: 1, ispu: 0 };
    s.pin_int1_route_set(route).unwrap();
    assert_eq!(s.bus.banks[0][0x0D], 0x05);
    assert_eq!(s.bus.banks[0][0x5E], 0x01);
    assert_eq!(s.pin_int1_route_get().unwrap(), route);
}

#[test]
fn device_id_matches_published_constant() {
    let mut s = sensor();
    assert_eq!(s.device_id_get().unwrap(), 0x22);
    assert!(s.device_id_check().is_ok());
}

#[test]
fn device_id_mismatch_is_reported() {
    let mut s = sensor();
    s.bus.banks[0][0x0F] = 0x6C;
    assert!(matches!(s.device_id_check(), Err(Error::UnexpectedValue)));
}

#[test]
fn dummy_cfg_past_window_is_refused_without_bus_write() {
    let mut s = sensor();
    let r = s.ispu_write_dummy_cfg(6, &[1, 2, 3], 3);
    assert!(matches!(r, Err(Error::UnexpectedValue)));
    assert!(s.bus.ops.is_empty());
    let mut buf = [0u8; 4];
    assert!(matches!(s.ispu_read_dummy_cfg(5, &mut buf, 4), Err(Error::UnexpectedValue)));
    assert!(s.bus.ops.is_empty());
}

#[test]
fn dummy_cfg_inside_window_is_written() {
    let mut s = sensor();
    s.ispu_write_dummy_cfg(2, &[9, 8, 7], 2).unwrap();
    assert_eq!(s.bus.ops, vec![Op::Write(vec![0x75, 9, 8])]);
    s.ispu_write_dummy_cfg(0, &[1; 8], 8).unwrap();
    let mut buf = [0u8; 3];
    s.ispu_read_dummy_cfg(6, &mut buf, 2).unwrap();
    assert_eq!(buf, [1, 1, 0]);
}

#[test]
fn hub_write_of_one_byte() {
    let mut s = sensor();
    s.sh_passthrough_write_byte(SECONDARY_A, 0x20, 0x5A).unwrap();
    assert_eq!(s.bus.secondary[0][0x20], 0x5A);
    assert_eq!(s.bus.banks[1][0x15], SECONDARY_A << 1);
    assert_eq!(s.bus.banks[1][0x16], 0x20);
    assert_eq!(s.bus.banks[1][0x21], 0x5A);
    // Hub master disabled and accelerometer off at the end.
    assert_eq!(s.bus.banks[1][0x14] & 0x04, 0);
    assert_eq!(s.bus.banks[0][0x10] >> 4, 0);
    assert_eq!(s.bus.bank, 0);
}

#[test]
fn passthrough_bus_writes_and_reads() {
    let s = sensor();
    let mut p = Lsm6dso16isPassthrough::new_from_sensor(s, SECONDARY_B);
    p.write_bytes(&[0x30, 0x11, 0x22]).unwrap();
    let mut out = [0u8; 2];
    p.write_byte_read_bytes(&[0x30], &mut out).unwrap();
    assert_eq!(out, [0x11, 0x22]);
    let mut none = [0u8; 1];
    assert!(matches!(p.read_bytes(&mut none), Err(Error::UnexpectedValue)));
    let s = p.release();
    assert_eq!(s.bus.secondary[1][0x30], 0x11);
    assert_eq!(s.bus.secondary[1][0x31], 0x22);
}

#[test]
fn two_slaves_layout() {
    let mut s = sensor();
    s.sh_slv_cfg_read(0, &ShCfgRead { slv_add: SECONDARY_A, slv_subadd: 0x28, slv_len: 6 }).unwrap();
    s.sh_slv_cfg_read(1, &ShCfgRead { slv_add: SECONDARY_B, slv_subadd: 0x10, slv_len: 6 }).unwrap();
    s.sh_slave_connected_set(ShSlaveConnected::_01).unwrap();
    s.sh_master_set(1).unwrap();
    s.xl_data_rate_set(XlDataRate::_26hzHp).unwrap();
    let mut raw = [0u8; 12];
    s.sh_read_data_raw_get(&mut raw).unwrap();
    assert_eq!(&raw[0..6], &[0x28, 0x29, 0x2A, 0x2B, 0x2C, 0x2D]);
    assert_eq!(&raw[6..12], &[0x90, 0x91, 0x92, 0x93, 0x94, 0x95]);
    assert_eq!(s.bus.banks[1][0x18], (SECONDARY_B << 1) | 1);
}

#[test]
fn sh_cfg_write_configures_slot_zero() {
    let mut s = sensor();
    s.sh_cfg_write(ShCfgWrite { slv0_add: 0x1E, slv0_subadd: 0x60, slv0_data: 0x8C }).unwrap();
    assert_eq!(
        s.bus.ops,
        vec![
            Op::Write(vec![0x01, 0x40]),
            Op::Write(vec![0x15, 0x3C]),
            Op::Write(vec![0x16, 0x60]),
            Op::Write(vec![0x21, 0x8C]),
            Op::Write(vec![0x01, 0x00]),
        ]
    );
}

#[test]
fn ispu_words_little_endian() {
    let mut s = sensor();
    s.ispu_algo_set(0x0102_0304).unwrap();
    assert_eq!(&s.bus.banks[2][0x70..0x74], &[0x04, 0x03, 0x02, 0x01]);
    assert_eq!(s.ispu_algo_get().unwrap(), 0x0102_0304);
    s.ispu_write_flags(0xBEEF).unwrap();
    assert_eq!(&s.bus.banks[2][0x0C..0x0E], &[0xEF, 0xBE]);
    s.bus.banks[0][0x40] = 0x78;
    s.bus.banks[0][0x41] = 0x56;
    s.bus.banks[0][0x42] = 0x34;
    s.bus.banks[0][0x43] = 0x12;
    assert_eq!(s.timestamp_raw_get().unwrap(), 0x1234_5678);
    s.bus.banks[0][0x20] = 0x00;
    s.bus.banks[0][0x21] = 0xFF;
    assert_eq!(s.temperature_raw_get().unwrap(), -256);
}

#[test]
fn ispu_boot_and_sources() {
    let mut s = sensor();
    s.ispu_boot_set(IspuBootLatched::Off).unwrap();
    assert_eq!(s.bus.banks[2][0x02] & 0x03, 0x03);
    assert_eq!(s.ispu_boot_get().unwrap(), IspuBootLatched::Off);
    s.ispu_boot_set(IspuBootLatched::On).unwrap();
    assert_eq!(s.bus.banks[2][0x02] & 0x03, 0x00);
    assert_eq!(s.ispu_boot_get().unwrap(), IspuBootLatched::On);
    s.bus.banks[0][0x39] = 0x09;
    let all = s.all_sources_get().unwrap();
    assert_eq!(all.drdy_xl, 1);
    assert_eq!(all.sh_endop, 1);
    assert_eq!(all.sh_slave0_nack, 1);
    assert_eq!(all.sh_slave1_nack, 0);
}

#[test]
fn software_reset_completes() {
    let mut s = sensor();
    s.bus.banks[0][0x12] = 0x04;
    s.software_reset().unwrap();
    assert!(s.bus.ops.contains(&Op::Write(vec![0x12, 0x05])));
}

#[test]
fn hub_cycle_times_out_when_data_never_ready() {
    let mut s = sensor();
    s.bus.banks[0][0x1E] = 0x00;
    let r = s.sh_passthrough_write_byte(SECONDARY_A, 0x20, 0x01);
    assert!(matches!(r, Err(Error::Timeout)));
}

#[test]
fn low_power_rate_disables_high_performance() {
    let mut s = sensor();
    s.xl_data_rate_set(XlDataRate::_52hzLp).unwrap();
    assert_eq!(s.bus.banks[0][0x15] & 0x10, 0x10);
    assert_eq!(s.bus.banks[0][0x10] >> 4, 0x3);
    assert_eq!(s.xl_data_rate_get().unwrap(), XlDataRate::_52hzLp);
}

#[test]
fn sensor_hub_settings_round_trip() {
    let mut s = sensor();
    s.sh_slave_connected_set(ShSlaveConnected::_012).unwrap();
    assert_eq!(s.sh_slave_connected_get().unwrap(), ShSlaveConnected::_012);
    s.sh_master_set(1).unwrap();
    assert_eq!(s.sh_master_get().unwrap(), 1);
    assert_eq!(s.bus.banks[1][0x14], 0x06);
    assert_eq!(s.bus.bank, 0);
}

#[test]
fn ispu_data_rate_and_bdu() {
    let mut s = sensor();
    s.ispu_data_rate_set(IspuDataRate::_104hz).unwrap();
    assert_eq!(s.ispu_data_rate_get().unwrap(), IspuDataRate::_104hz);
    assert_eq!(s.bus.banks[0][0x18] >> 4, 0x4);
}

#[test]
fn bridge_write_of_fewer_than_two_bytes_makes_no_transfer() {
    let mut s = sensor();
    s.sh_passthrough_write(SECONDARY_A, &[0x10]).unwrap();
    s.sh_passthrough_write(SECONDARY_A, &[]).unwrap();
    assert!(s.bus.ops.is_empty());
}

#[test]
fn bridge_read_of_more_than_seven_bytes_is_refused() {
    let mut s = sensor();
    let mut buf = [0xAAu8; 8];
    assert!(matches!(s.sh_passthrough_read(SECONDARY_A, 0x10, &mut buf), Err(Error::UnexpectedValue)));
    assert!(s.bus.ops.is_empty());
    assert_eq!(buf, [0xAA; 8]);
}

#[test]
fn bridge_read_connects_slot_zero_only() {
    let mut s = sensor();
    let mut buf = [0u8; 3];
    s.sh_passthrough_read(SECONDARY_A, 0x40, &mut buf).unwrap();
    assert_eq!(buf, [0x40, 0x41, 0x42]);
    assert_eq!(s.bus.banks[1][0x14] & 0x03, 0);
    assert_eq!(s.bus.banks[1][0x17] & 0x07, 3);
}

#[test]
fn bridge_early_failure_leaves_buffer_and_stops() {
    let mut s = sensor();
    s.bus.fail_at = Some(2);
    let mut buf = [0x55u8; 2];
    assert!(matches!(s.sh_passthrough_read(SECONDARY_A, 0x40, &mut buf), Err(Error::Bus(Fault))));
    assert_eq!(buf, [0x55, 0x55]);
    assert_eq!(s.bus.ops.len(), 2);
}

#[test]
fn hub_write_aborts_on_failed_output_read() {
    let mut s = sensor();
    // Transfers before the output read: slot 0 (5), accelerometer off (4),
    // master on (4), accelerometer at 26 Hz (4).
    s.bus.fail_at = Some(17);
    let r = s.sh_passthrough_write_byte(SECONDARY_A, 0x20, 0x01);
    assert!(matches!(r, Err(Error::Bus(Fault))));
    assert_eq!(s.bus.ops.len(), 17);
}

#[test]
fn ispu_read_memory_aborts_on_failed_stale_read() {
    let mut s = sensor();
    // Bank selection, ISPU_CONFIG read and write, memory select, address:
    // the stale read is transfer 5.
    s.bus.fail_at = Some(5);
    let mut out = [0u8; 2];
    let r = s.ispu_read_memory(IspuMemoryType::DataRamMemory, 0x40, &mut out, 2);
    assert!(matches!(r, Err(Error::Bus(Fault))));
    assert!(!s.bus.ops.iter().any(|op| matches!(op, Op::WriteRead(0x0B, 2))));
}

#[test]
fn software_reset_times_out_when_reset_bit_stays_set() {
    let mut s = sensor();
    s.bus.sticky_reset = true;
    assert!(matches!(s.software_reset(), Err(Error::Timeout)));
    let polls = s.bus.ops.iter().filter(|op| matches!(op, Op::WriteRead(0x12, 1))).count();
    assert_eq!(polls, 1 + lsm6dso16is::MAX_POLLS as usize);
}
