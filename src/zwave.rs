//! Z-Wave packet parameters and scan configurations.
use vstd::prelude::*;

verus! {

/// Z-Wave data rate (R1, R2, R3) or long range (LR1)
#[derive(Debug, Clone, Copy, PartialEq, Eq, Structural)]
pub enum ZwaveMode {
    R1,
    R2,
    R3,
    Lr1,
}

/// Address comparison in reception
#[derive(Debug, Clone, Copy, PartialEq, Eq, Structural)]
pub enum ZwaveAddrComp {
    Off,
    Homeid,
    HomeidBeam,
}

/// Handling of the frame check sequence
#[derive(Debug, Clone, Copy, PartialEq, Eq, Structural)]
pub enum FcsMode {
    /// Computed and checked by the chip
    Auto,
    /// Kept in the FIFO
    Fifo,
}

/// Z-Wave packet parameters
#[derive(Debug, Clone, Copy, PartialEq, Eq, Structural)]
pub struct ZwavePacketParams {
    pub mode: ZwaveMode,
    /// Receiver bandwidth code, `None` for automatic
    pub rx_bw: Option<u8>,
    pub addr_comp: ZwaveAddrComp,
    pub pld_len: u8,
    pub pbl_len_tx: u16,
    pub pbl_len_detect: u8,
    pub fcs_mode: FcsMode,
}

/// Kind of PPDU
#[derive(Debug, Clone, Copy, PartialEq, Eq, Structural)]
pub enum ZwavePpduKind {
    SingleCast,
    MultiCast,
    Beam,
}

/// The preamble length (bytes) that the standard sets for a PPDU kind and a mode.
pub open spec fn zwave_preamble_bytes(kind: ZwavePpduKind, mode: ZwaveMode) -> u16 {
    match (kind, mode) {
        (ZwavePpduKind::Beam, ZwaveMode::Lr1) => 2,
        (_, ZwaveMode::Lr1) => 10,
        (ZwavePpduKind::SingleCast, _) => 10,
        (ZwavePpduKind::MultiCast, ZwaveMode::R1) => 10,
        (ZwavePpduKind::MultiCast, ZwaveMode::R2) => 20,
        (ZwavePpduKind::MultiCast, ZwaveMode::R3) => 24,
        (ZwavePpduKind::Beam, ZwaveMode::R3) => 8,
        (ZwavePpduKind::Beam, _) => 20,
    }
}

impl ZwavePacketParams {
    /// Packet parameters given field by field
    pub fn new(
        mode: ZwaveMode,
        rx_bw: Option<u8>,
        addr_comp: ZwaveAddrComp,
        pld_len: u8,
        pbl_len_tx: u16,
        pbl_len_detect: u8,
        fcs_mode: FcsMode,
    ) -> (r: Self)
        ensures
            r == (ZwavePacketParams { mode, rx_bw, addr_comp, pld_len, pbl_len_tx, pbl_len_detect, fcs_mode }),
    {
        ZwavePacketParams { mode, rx_bw, addr_comp, pld_len, pbl_len_tx, pbl_len_detect, fcs_mode }
    }

    /// Packet parameters for a mode and PPDU kind: the standard preamble (in
    /// bits), automatic bandwidth, no address comparison, and the FCS kept in
    /// the FIFO for LR1 only
    pub fn from_mode(mode: ZwaveMode, kind: ZwavePpduKind, pld_len: u8) -> (r: Self)
        ensures
            r == (ZwavePacketParams {
                mode,
                rx_bw: None,
                addr_comp: ZwaveAddrComp::Off,
                pld_len,
                pbl_len_tx: (8 * zwave_preamble_bytes(kind, mode)) as u16,
                pbl_len_detect: 32,
                fcs_mode: if mode == ZwaveMode::Lr1 { FcsMode::Fifo } else { FcsMode::Auto },
            }),
    {
        let fcs_mode = if mode == ZwaveMode::Lr1 { FcsMode::Fifo } else { FcsMode::Auto };
        let pbl_bytes: u16 = match (kind, mode) {
            (ZwavePpduKind::Beam, ZwaveMode::Lr1) => 2,
            (_, ZwaveMode::Lr1) => 10,
            (ZwavePpduKind::SingleCast, _) => 10,
            (ZwavePpduKind::MultiCast, ZwaveMode::R1) => 10,
            (ZwavePpduKind::MultiCast, ZwaveMode::R2) => 20,
            (ZwavePpduKind::MultiCast, ZwaveMode::R3) => 24,
            (ZwavePpduKind::Beam, ZwaveMode::R3) => 8,
            (ZwavePpduKind::Beam, _) => 20,
        };
        ZwavePacketParams {
            mode,
            rx_bw: None,
            addr_comp: ZwaveAddrComp::Off,
            pld_len,
            pbl_len_tx: pbl_bytes * 8,
            pbl_len_detect: 32,
            fcs_mode,
        }
    }

    /// Enable address filtering on the home id, and on beams when `beam_en`
    pub fn with_filt(self, beam_en: bool) -> (r: Self)
        ensures
            r == (ZwavePacketParams {
                addr_comp: if beam_en { ZwaveAddrComp::HomeidBeam } else { ZwaveAddrComp::Homeid },
                ..self
            }),
    {
        ZwavePacketParams {
            addr_comp: if beam_en { ZwaveAddrComp::HomeidBeam } else { ZwaveAddrComp::Homeid },
            ..self
        }
    }
}

/// Configuration of one channel of a scan
#[derive(Debug, Clone, Copy, PartialEq, Eq, Structural)]
pub struct ZwaveChanCfg {
    /// Frequency associated with this channel
    pub freq: u32,
    /// ZWave Mode selection (R1, R2, R3, LR1)
    pub mode: ZwaveMode,
    /// Timeout used in scan to switch to the next channel
    pub timeout: u8,
    /// Use CCA as a first step detection in scan
    pub cca_en: bool,
}

/// A channel configuration without CCA.
pub open spec fn chan(freq: u32, mode: ZwaveMode, timeout: u8) -> ZwaveChanCfg {
    ZwaveChanCfg { freq, mode, timeout, cca_en: false }
}

impl ZwaveChanCfg {
    /// Create a channel configuration for R1
    pub fn r1(freq: u32) -> (r: Self)
        ensures
            r == chan(freq, ZwaveMode::R1, 19),
    {
        ZwaveChanCfg { freq, mode: ZwaveMode::R1, timeout: 19, cca_en: false }
    }

    /// Create a channel configuration for R2
    /// Fast flag is used when scanning 4 channel
    pub fn r2(freq: u32, fast: bool) -> (r: Self)
        ensures
            r == chan(freq, ZwaveMode::R2, if fast { 30 } else { 34 }),
    {
        ZwaveChanCfg { freq, mode: ZwaveMode::R2, timeout: if fast { 30 } else { 34 }, cca_en: false }
    }

    /// Create a channel configuration for R3
    /// Fast flag is used when scanning 4 channel
    pub fn r3(freq: u32, fast: bool) -> (r: Self)
        ensures
            r == chan(freq, ZwaveMode::R3, if fast { 7 } else { 8 }),
    {
        ZwaveChanCfg { freq, mode: ZwaveMode::R3, timeout: if fast { 7 } else { 8 }, cca_en: false }
    }

    /// Create a channel configuration for LR1
    pub fn lr1(freq: u32) -> (r: Self)
        ensures
            r == chan(freq, ZwaveMode::Lr1, 12),
    {
        ZwaveChanCfg { freq, mode: ZwaveMode::Lr1, timeout: 12, cca_en: false }
    }
}

/// Scan configuration: up to four channels
#[derive(Debug, Clone, Copy, PartialEq, Eq, Structural)]
pub struct ZwaveScanCfg {
    pub addr_comp: ZwaveAddrComp,
    pub fcs_mode: FcsMode,
    pub nb_ch: u8,
    pub ch1: ZwaveChanCfg,
    pub ch2: ZwaveChanCfg,
    pub ch3: ZwaveChanCfg,
    pub ch4: ZwaveChanCfg,
}

/// Z-Wave RF regions
#[derive(Debug, Clone, Copy, PartialEq, Eq, Structural)]
pub enum ZwaveRfRegion {
    Anz,
    Cn,
    Eu,
    EuLr1,
    EuLr2,
    Hk,
    Il,
    In,
    Jp,
    Kr,
    Ru,
    Us,
    UsLr1,
    UsLr2,
}

/// Scan of the three base rates (R1, R2, R3), the LR1 slot left at 912 MHz.
pub open spec fn base_rate_cfg(addr_comp: ZwaveAddrComp, fcs_mode: FcsMode, rf_r1: u32, rf_r2: u32, rf_r3: u32) -> ZwaveScanCfg {
    ZwaveScanCfg {
        addr_comp,
        fcs_mode,
        nb_ch: 3,
        ch1: chan(rf_r1, ZwaveMode::R1, 19),
        ch2: chan(rf_r2, ZwaveMode::R2, 34),
        ch3: chan(rf_r3, ZwaveMode::R3, 8),
        ch4: chan(912_000_000, ZwaveMode::Lr1, 12),
    }
}

/// Scan of the three base rates and LR1, with the fast timeouts.
pub open spec fn all_rate_cfg(addr_comp: ZwaveAddrComp, fcs_mode: FcsMode, rf_r1: u32, rf_r2: u32, rf_r3: u32, rf_lr1: u32) -> ZwaveScanCfg {
    ZwaveScanCfg {
        addr_comp,
        fcs_mode,
        nb_ch: 4,
        ch1: chan(rf_r1, ZwaveMode::R1, 19),
        ch2: chan(rf_r2, ZwaveMode::R2, 30),
        ch3: chan(rf_r3, ZwaveMode::R3, 7),
        ch4: chan(rf_lr1, ZwaveMode::Lr1, 12),
    }
}

/// Scan of R3 on three frequencies, the LR1 slot left at 912 MHz.
pub open spec fn all_r3_cfg(addr_comp: ZwaveAddrComp, fcs_mode: FcsMode, rf_1: u32, rf_2: u32, rf_3: u32) -> ZwaveScanCfg {
    ZwaveScanCfg {
        addr_comp,
        fcs_mode,
        nb_ch: 3,
        ch1: chan(rf_1, ZwaveMode::R3, 8),
        ch2: chan(rf_2, ZwaveMode::R3, 8),
        ch3: chan(rf_3, ZwaveMode::R3, 8),
        ch4: chan(912_000_000, ZwaveMode::Lr1, 12),
    }
}

/// The scan of an official region.
pub open spec fn region_cfg(addr_comp: ZwaveAddrComp, fcs_mode: FcsMode, region: ZwaveRfRegion) -> ZwaveScanCfg {
    match region {
        ZwaveRfRegion::Anz => base_rate_cfg(addr_comp, fcs_mode, 921_400_000, 921_400_000, 919_800_000),
        ZwaveRfRegion::Cn => base_rate_cfg(addr_comp, fcs_mode, 868_400_000, 868_400_000, 868_400_000),
        ZwaveRfRegion::Eu => base_rate_cfg(addr_comp, fcs_mode, 868_400_000, 868_400_000, 869_850_000),
        ZwaveRfRegion::Hk => base_rate_cfg(addr_comp, fcs_mode, 919_800_000, 919_800_000, 919_800_000),
        ZwaveRfRegion::Il => base_rate_cfg(addr_comp, fcs_mode, 916_000_000, 916_000_000, 916_000_000),
        ZwaveRfRegion::In => base_rate_cfg(addr_comp, fcs_mode, 865_200_000, 865_200_000, 865_200_000),
        ZwaveRfRegion::Ru => base_rate_cfg(addr_comp, fcs_mode, 869_000_000, 869_000_000, 869_000_000),
        ZwaveRfRegion::Us => base_rate_cfg(addr_comp, fcs_mode, 908_400_000, 908_400_000, 916_000_000),
        ZwaveRfRegion::Jp => all_r3_cfg(addr_comp, fcs_mode, 922_500_000, 923_900_000, 926_300_000),
        ZwaveRfRegion::Kr => all_r3_cfg(addr_comp, fcs_mode, 920_900_000, 921_700_000, 923_100_000),
        ZwaveRfRegion::EuLr1 => all_rate_cfg(addr_comp, fcs_mode, 868_400_000, 868_400_000, 869_850_000, 864_400_000),
        ZwaveRfRegion::EuLr2 => all_rate_cfg(addr_comp, fcs_mode, 868_400_000, 868_400_000, 869_850_000, 866_400_000),
        ZwaveRfRegion::UsLr1 => all_rate_cfg(addr_comp, fcs_mode, 908_400_000, 908_400_000, 916_000_000, 912_000_000),
        ZwaveRfRegion::UsLr2 => all_rate_cfg(addr_comp, fcs_mode, 908_400_000, 908_400_000, 916_000_000, 920_000_000),
    }
}

impl ZwaveScanCfg {
    /// Create the scan configuration corresponding to an official region
    pub fn from_region(addr_comp: ZwaveAddrComp, fcs_mode: FcsMode, region: ZwaveRfRegion) -> (r: Self)
        ensures
            r == region_cfg(addr_comp, fcs_mode, region),
    {
        match region {
            ZwaveRfRegion::Anz => Self::base_rate(addr_comp, fcs_mode, 921_400_000, 921_400_000, 919_800_000),
            ZwaveRfRegion::Cn => Self::base_rate(addr_comp, fcs_mode, 868_400_000, 868_400_000, 868_400_000),
            ZwaveRfRegion::Eu => Self::base_rate(addr_comp, fcs_mode, 868_400_000, 868_400_000, 869_850_000),
            ZwaveRfRegion::Hk => Self::base_rate(addr_comp, fcs_mode, 919_800_000, 919_800_000, 919_800_000),
            ZwaveRfRegion::Il => Self::base_rate(addr_comp, fcs_mode, 916_000_000, 916_000_000, 916_000_000),
            ZwaveRfRegion::In => Self::base_rate(addr_comp, fcs_mode, 865_200_000, 865_200_000, 865_200_000),
            ZwaveRfRegion::Ru => Self::base_rate(addr_comp, fcs_mode, 869_000_000, 869_000_000, 869_000_000),
            ZwaveRfRegion::Us => Self::base_rate(addr_comp, fcs_mode, 908_400_000, 908_400_000, 916_000_000),
            ZwaveRfRegion::Jp => Self::all_r3(addr_comp, fcs_mode, 922_500_000, 923_900_000, 926_300_000),
            ZwaveRfRegion::Kr => Self::all_r3(addr_comp, fcs_mode, 920_900_000, 921_700_000, 923_100_000),
            ZwaveRfRegion::EuLr1 => Self::all_rate(addr_comp, fcs_mode, 868_400_000, 868_400_000, 869_850_000, 864_400_000),
            ZwaveRfRegion::EuLr2 => Self::all_rate(addr_comp, fcs_mode, 868_400_000, 868_400_000, 869_850_000, 866_400_000),
            ZwaveRfRegion::UsLr1 => Self::all_rate(addr_comp, fcs_mode, 908_400_000, 908_400_000, 916_000_000, 912_000_000),
            ZwaveRfRegion::UsLr2 => Self::all_rate(addr_comp, fcs_mode, 908_400_000, 908_400_000, 916_000_000, 920_000_000),
        }
    }

    /// Create scanning for all base rate only (i.e no LR)
    pub fn base_rate(addr_comp: ZwaveAddrComp, fcs_mode: FcsMode, rf_r1: u32, rf_r2: u32, rf_r3: u32) -> (r: Self)
        ensures
            r == base_rate_cfg(addr_comp, fcs_mode, rf_r1, rf_r2, rf_r3),
    {
        ZwaveScanCfg {
            addr_comp,
            fcs_mode,
            nb_ch: 3,
            ch1: ZwaveChanCfg::r1(rf_r1),
            ch2: ZwaveChanCfg::r2(rf_r2, false),
            ch3: ZwaveChanCfg::r3(rf_r3, false),
            ch4: ZwaveChanCfg::lr1(912_000_000),
        }
    }

    /// Create scanning for all rate including LR
    pub fn all_rate(addr_comp: ZwaveAddrComp, fcs_mode: FcsMode, rf_r1: u32, rf_r2: u32, rf_r3: u32, rf_lr1: u32) -> (r: Self)
        ensures
            r == all_rate_cfg(addr_comp, fcs_mode, rf_r1, rf_r2, rf_r3, rf_lr1),
    {
        ZwaveScanCfg {
            addr_comp,
            fcs_mode,
            nb_ch: 4,
            ch1: ZwaveChanCfg::r1(rf_r1),
            ch2: ZwaveChanCfg::r2(rf_r2, true),
            ch3: ZwaveChanCfg::r3(rf_r3, true),
            ch4: ZwaveChanCfg::lr1(rf_lr1),
        }
    }

    /// Create scanning for R3 only, on three frequencies
    pub fn all_r3(addr_comp: ZwaveAddrComp, fcs_mode: FcsMode, rf_r1: u32, rf_r2: u32, rf_r3: u32) -> (r: Self)
        ensures
            r == all_r3_cfg(addr_comp, fcs_mode, rf_r1, rf_r2, rf_r3),
    {
        ZwaveScanCfg {
            addr_comp,
            fcs_mode,
            nb_ch: 3,
            ch1: ZwaveChanCfg::r3(rf_r1, false),
            ch2: ZwaveChanCfg::r3(rf_r2, false),
            ch3: ZwaveChanCfg::r3(rf_r3, false),
            ch4: ZwaveChanCfg::lr1(912_000_000),
        }
    }

    /// Scan only the two LR channels (US or EU)
    pub fn lr_only(addr_comp: ZwaveAddrComp, fcs_mode: FcsMode, is_us: bool) -> (r: Self)
        ensures
            r == (ZwaveScanCfg {
                addr_comp,
                fcs_mode,
                nb_ch: 2,
                ch1: chan(if is_us { 912_000_000 } else { 864_400_000 }, ZwaveMode::Lr1, 12),
                ch2: chan(if is_us { 920_000_000 } else { 866_400_000 }, ZwaveMode::Lr1, 12),
                ch3: chan(919_800_000, ZwaveMode::Lr1, 12),
                ch4: chan(919_800_000, ZwaveMode::Lr1, 12),
            }),
    {
        if is_us {
            ZwaveScanCfg {
                addr_comp,
                fcs_mode,
                nb_ch: 2,
                ch1: ZwaveChanCfg::lr1(912_000_000),
                ch2: ZwaveChanCfg::lr1(920_000_000),
                ch3: ZwaveChanCfg::lr1(919_800_000),
                ch4: ZwaveChanCfg::lr1(919_800_000),
            }
        } else {
            ZwaveScanCfg {
                addr_comp,
                fcs_mode,
                nb_ch: 2,
                ch1: ZwaveChanCfg::lr1(864_400_000),
                ch2: ZwaveChanCfg::lr1(866_400_000),
                ch3: ZwaveChanCfg::lr1(919_800_000),
                ch4: ZwaveChanCfg::lr1(919_800_000),
            }
        }
    }

    /// The command byte that holds the number of channels (high nibble) and
    /// the CCA enables of the four channels (bits 0 to 3)
    pub fn cmd_nb_ch(&self) -> (r: u8)
        ensures
            r == (self.nb_ch as int % 16) * 16 + (if self.ch1.cca_en { 1int } else { 0int }) + (if self.ch2.cca_en {
                2int
            } else {
                0int
            }) + (if self.ch3.cca_en { 4int } else { 0int }) + (if self.ch4.cca_en { 8int } else { 0int }),
    {
        (self.nb_ch % 16) * 16 + (if self.ch1.cca_en { 1 } else { 0 }) + (if self.ch2.cca_en { 2 } else { 0 }) + (
        if self.ch3.cca_en {
            4
        } else {
            0
        }) + (if self.ch4.cca_en { 8 } else { 0 })
    }
}

} // verus!
