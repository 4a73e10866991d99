//! The boot information record handed over by the loader.
//!
//! The record is a flat structure whose fields are only meaningful when the
//! matching bit of `flags` is set; every accessor is keyed off its flag bit
//! and returns nothing when the bit is clear. The fields that are plain
//! values are decoded here; the ones that are raw pointers into loader
//! memory (command line, loader name, memory-map array, APM table) can only
//! be followed by the unverified shell.

use vstd::prelude::*;

use crate::vga;

verus! {

/// The magic value the loader leaves in a register to prove the record's
/// provenance; startup aborts on any other value.
pub const MAGIC: u32 = 0x2BADB002;

/// Whether flag `bit` is set in `flags`.
pub open spec fn spec_flag(flags: u32, bit: u32) -> bool {
    flags & (1u32 << bit) != 0
}

/// The loader's boot information record. Every field past `flags` is
/// meaningless unless its flag bit is set; read them through the accessors.
#[derive(Clone, Copy, Debug)]
pub struct Info {
    pub flags: u32,
    pub mem_upper: u32,
    pub mem_lower: u32,
    pub boot_device: u32,
    pub cmdline: u32,
    pub mods_count: u32,
    pub mods_addr: u32,
    pub syms: [u32; 4],
    pub mmap_length: u32,
    pub mmpa_addr: u32,
    pub drives_length: u32,
    pub drives_addr: u32,
    pub config_table: u32,
    pub boot_loader_name: u32,
    pub apm_table: u32,
    pub vbe_control_info: u32,
    pub vbe_mode_info: u32,
    pub vbe_mode: u16,
    pub vbe_interface_seq: u16,
    pub vbe_interface_off: u16,
    pub vbe_interface_len: u16,
    pub framebuffer_addr: u64,
    pub framebuffer_pitch: u32,
    pub framebuffer_width: u32,
    pub framebuffer_height: u32,
    pub framebuffer_bpp: u8,
    pub framebuffer_type: u8,
    pub color_info: [u8; 5],
}

/// The kernel symbol information of the record: one of the two layouts the
/// loader may report.
#[derive(Clone, Copy, Debug)]
pub enum Symbols {
    AOut { tabsize: u32, strsize: u32, addr: u32 },
    Elf { num: u32, size: u32, addr: u32, shndx: u32 },
}

/// The advanced-power-management table the record may point at.
#[derive(Clone, Copy, Debug)]
pub struct ApmTable {
    pub version: u16,
    pub cseg: u16,
    pub offset: u32,
    pub cseg_16: u16,
    pub dseg: u16,
    pub flags: u16,
    pub cseg_len: u16,
    pub cseg_16_len: u16,
    pub dseg_len: u16,
}

/// The VESA BIOS extension information; not decoded further yet.
#[derive(Clone, Copy, Debug, PartialEq, Eq, Structural)]
pub struct Vbe;

impl Info {
    /// Whether flag `bit` of the record is set.
    pub fn is_flag_set(&self, bit: u32) -> (r: bool)
        requires
            bit < 32,
        ensures
            r == spec_flag(self.flags, bit),
    {
        self.flags & (1 << bit) != 0
    }

    /// The raw flags word.
    pub fn get_flags(&self) -> (r: u32)
        ensures
            r == self.flags,
    {
        self.flags
    }

    /// The lower and upper memory sizes, when flag 0 is set.
    pub fn get_mem(&self) -> (r: Option<(u32, u32)>)
        ensures
            r == (if spec_flag(self.flags, 0) {
                Some((self.mem_lower, self.mem_upper))
            } else {
                None::<(u32, u32)>
            }),
    {
        if self.is_flag_set(0) {
            Some((self.mem_lower, self.mem_upper))
        } else {
            None
        }
    }

    /// The BIOS boot device, when flag 1 is set.
    pub fn get_boot_device(&self) -> (r: Option<u32>)
        ensures
            r == (if spec_flag(self.flags, 1) {
                Some(self.boot_device)
            } else {
                None::<u32>
            }),
    {
        if self.is_flag_set(1) {
            Some(self.boot_device)
        } else {
            None
        }
    }

    /// The boot-module count and array address, when flag 3 is set.
    pub fn get_mods(&self) -> (r: Option<(u32, u32)>)
        ensures
            r == (if spec_flag(self.flags, 3) {
                Some((self.mods_count, self.mods_addr))
            } else {
                None::<(u32, u32)>
            }),
    {
        if self.is_flag_set(3) {
            Some((self.mods_count, self.mods_addr))
        } else {
            None
        }
    }

    /// The kernel symbol information: the a.out layout under flag 4, the ELF
    /// layout under flag 5, nothing when neither or both are set.
    pub fn get_syms(&self) -> (r: Option<Symbols>)
        ensures
            spec_flag(self.flags, 4) && !spec_flag(self.flags, 5) ==> r == Some(
                Symbols::AOut {
                    tabsize: self.syms[0],
                    strsize: self.syms[1],
                    addr: self.syms[2],
                },
            ),
            !spec_flag(self.flags, 4) && spec_flag(self.flags, 5) ==> r == Some(
                Symbols::Elf {
                    num: self.syms[0],
                    size: self.syms[1],
                    addr: self.syms[2],
                    shndx: self.syms[3],
                },
            ),
            spec_flag(self.flags, 4) == spec_flag(self.flags, 5) ==> r is None,
    {
        match (self.is_flag_set(4), self.is_flag_set(5)) {
            (true, false) => Some(
                Symbols::AOut { tabsize: self.syms[0], strsize: self.syms[1], addr: self.syms[2] },
            ),
            (false, true) => Some(
                Symbols::Elf {
                    num: self.syms[0],
                    size: self.syms[1],
                    addr: self.syms[2],
                    shndx: self.syms[3],
                },
            ),
            _ => None,
        }
    }

    /// The drive structures' length and address, when flag 7 is set.
    pub fn get_drives(&self) -> (r: Option<(u32, u32)>)
        ensures
            r == (if spec_flag(self.flags, 7) {
                Some((self.drives_length, self.drives_addr))
            } else {
                None::<(u32, u32)>
            }),
    {
        if self.is_flag_set(7) {
            Some((self.drives_length, self.drives_addr))
        } else {
            None
        }
    }

    /// The ROM configuration table address, when flag 8 is set.
    pub fn get_config_table(&self) -> (r: Option<u32>)
        ensures
            r == (if spec_flag(self.flags, 8) {
                Some(self.config_table)
            } else {
                None::<u32>
            }),
    {
        if self.is_flag_set(8) {
            Some(self.config_table)
        } else {
            None
        }
    }

    /// The VESA BIOS extension information, when flag 11 is set.
    pub fn get_vbe(&self) -> (r: Option<Vbe>)
        ensures
            r == (if spec_flag(self.flags, 11) {
                Some(Vbe)
            } else {
                None::<Vbe>
            }),
    {
        if self.is_flag_set(11) {
            Some(Vbe)
        } else {
            None
        }
    }

    /// The framebuffer geometry, when flag 12 is set and the address fits a
    /// 32-bit linear address: width and height in cells, the byte pitch
    /// halved into a cell pitch.
    pub fn get_framebuffer(&self) -> (r: Option<vga::FrameBuffer>)
        ensures
            r == (if spec_flag(self.flags, 12) && self.framebuffer_addr < 0xFFFF_FFFF {
                Some(
                    (vga::FrameBuffer {
                        width: self.framebuffer_width as usize,
                        height: self.framebuffer_height as usize,
                        pitch: (self.framebuffer_pitch as usize) >> 1,
                        addr: self.framebuffer_addr as u32,
                    }),
                )
            } else {
                None::<vga::FrameBuffer>
            }),
    {
        if self.is_flag_set(12) && self.framebuffer_addr < 0xFFFF_FFFF {
            Some(
                vga::FrameBuffer::new(
                    self.framebuffer_width as usize,
                    self.framebuffer_height as usize,
                    (self.framebuffer_pitch as usize) >> 1,
                    self.framebuffer_addr as u32,
                ),
            )
        } else {
            None
        }
    }
}

impl Default for Info {
    /// The all-zero record: no flag set, so no accessor reports anything.
    fn default() -> (r: Self)
        ensures
            r.flags == 0,
            r.mem_upper == 0,
            r.mem_lower == 0,
            r.boot_device == 0,
            r.cmdline == 0,
            r.mods_count == 0,
            r.mods_addr == 0,
            forall|i: int| 0 <= i < 4 ==> r.syms@[i] == 0,
            r.mmap_length == 0,
            r.mmpa_addr == 0,
            r.drives_length == 0,
            r.drives_addr == 0,
            r.config_table == 0,
            r.boot_loader_name == 0,
            r.apm_table == 0,
            r.vbe_control_info == 0,
            r.vbe_mode_info == 0,
            r.vbe_mode == 0,
            r.vbe_interface_seq == 0,
            r.vbe_interface_off == 0,
            r.vbe_interface_len == 0,
            r.framebuffer_addr == 0,
            r.framebuffer_pitch == 0,
            r.framebuffer_width == 0,
            r.framebuffer_height == 0,
            r.framebuffer_bpp == 0,
            r.framebuffer_type == 0,
            forall|i: int| 0 <= i < 5 ==> r.color_info@[i] == 0,
    {
        Info {
            flags: 0,
            mem_upper: 0,
            mem_lower: 0,
            boot_device: 0,
            cmdline: 0,
            mods_count: 0,
            mods_addr: 0,
            syms: [0u32; 4],
            mmap_length: 0,
            mmpa_addr: 0,
            drives_length: 0,
            drives_addr: 0,
            config_table: 0,
            boot_loader_name: 0,
            apm_table: 0,
            vbe_control_info: 0,
            vbe_mode_info: 0,
            vbe_mode: 0,
            vbe_interface_seq: 0,
            vbe_interface_off: 0,
            vbe_interface_len: 0,
            framebuffer_addr: 0,
            framebuffer_pitch: 0,
            framebuffer_width: 0,
            framebuffer_height: 0,
            framebuffer_bpp: 0,
            framebuffer_type: 0,
            color_info: [0u8; 5],
        }
    }
}

} // verus!
