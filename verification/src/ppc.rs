//! Peripheral Protection Controller (PPC): security, privilege and protection-context
//! attributes of the PSC3 peripheral regions.
use vstd::prelude::*;
use crate::regs::{RegOp, bit_is_set, bit_modify, field_read, lemma_bit_modify, lemma_bit_modify_commute, lemma_reg_after_append, reg_after};

verus! {

/// Address of the PPC control register.
pub const PPC_CTL: u32 = 0x5202_0000;
/// Address of the PPC lock mask register.
pub const PPC_LOCK_MASK: u32 = 0x5202_000C;
/// Address of the first of the 1024 protection context mask registers.
pub const PPC_PC_MASKS: u32 = 0x5202_1000;
/// Address of the first of the 32 non-secure attribute registers.
pub const PPC_NS_ATTRS: u32 = 0x5202_2000;
/// Address of the first of the 32 secure privilege attribute registers.
pub const PPC_S_P_ATTRS: u32 = 0x5202_2400;
/// Address of the first of the 32 non-secure privilege attribute registers.
pub const PPC_NS_P_ATTRS: u32 = 0x5202_4000;
/// Number of peripheral regions.
pub const PPC_REGION_COUNT: usize = 222;

/// PPC region definitions, from the architecture reference manual.
#[derive(Clone, Copy, Debug, PartialEq, Eq, Structural)]
pub enum PpcRegion {
    /// Region 0: Address 0x42000000, size 0x00004000.
    ProtPeri0Main,
    /// Region 1: Address 0x42004010, size 0x00000008.
    ProtPeri0Gr0Group,
    /// Region 2: Address 0x42004040, size 0x00000020.
    ProtPeri0Gr1Group,
    /// Region 3: Address 0x42004080, size 0x00000020.
    ProtPeri0Gr2Group,
    /// Region 4: Address 0x420040c0, size 0x00000020.
    ProtPeri0Gr3Group,
    /// Region 5: Address 0x42004100, size 0x00000020.
    ProtPeri0Gr4Group,
    /// Region 6: Address 0x42004150, size 0x00000008.
    ProtPeri0Gr5Group,
    /// Region 7: Address 0x42004020, size 0x00000004.
    ProtPeri0Gr0Boot,
    /// Region 8: Address 0x42004060, size 0x00000004.
    ProtPeri0Gr1Boot,
    /// Region 9: Address 0x420040a0, size 0x00000004.
    ProtPeri0Gr2Boot,
    /// Region 10: Address 0x420040e0, size 0x00000004.
    ProtPeri0Gr3Boot,
    /// Region 11: Address 0x42004120, size 0x00000004.
    ProtPeri0Gr4Boot,
    /// Region 12: Address 0x42004160, size 0x00000004.
    ProtPeri0Gr5Boot,
    /// Region 13: Address 0x42008000, size 0x00008000.
    ProtPeri0Tr,
    /// Region 14: Address 0x42020000, size 0x00004000.
    ProtPpc0PpcPpcSecure,
    /// Region 15: Address 0x42024000, size 0x00004000.
    ProtPpc0PpcPpcNonsecure,
    /// Region 16: Address 0x42040000, size 0x00010000.
    ProtPeriPclk0Main,
    /// Region 17: Address 0x42100000, size 0x00010000.
    ProtCpuss,
    /// Region 18: Address 0x42110000, size 0x00000040.
    ProtRamc0Cm33,
    /// Region 19: Address 0x42110100, size 0x00000008.
    ProtRamc0Boot,
    /// Region 20: Address 0x42110200, size 0x00000100.
    ProtRamc0RamPwr,
    /// Region 21: Address 0x42114000, size 0x00000004.
    ProtRamc0Mpc0PpcMpcMain,
    /// Region 22: Address 0x42114100, size 0x00000020.
    ProtRamc0Mpc0PpcMpcPc,
    /// Region 23: Address 0x42114200, size 0x00000020.
    ProtRamc0Mpc0PpcMpcRot,
    /// Region 24: Address 0x42140000, size 0x00000004.
    ProtPromcCm33,
    /// Region 25: Address 0x42141000, size 0x00000004.
    ProtPromcMpc0PpcMpcMain,
    /// Region 26: Address 0x42141100, size 0x00000020.
    ProtPromcMpc0PpcMpcPc,
    /// Region 27: Address 0x42141200, size 0x00000020.
    ProtPromcMpc0PpcMpcRot,
    /// Region 28: Address 0x42150000, size 0x00000008.
    ProtFlashcBoot,
    /// Region 29: Address 0x42150100, size 0x00000020.
    ProtFlashcBoot1,
    /// Region 30: Address 0x42150200, size 0x00000010.
    ProtFlashcMain,
    /// Region 31: Address 0x42150400, size 0x00000080.
    ProtFlashcDft,
    /// Region 32: Address 0x42150800, size 0x00000010.
    ProtFlashcEcc,
    /// Region 33: Address 0x42151000, size 0x00000004.
    ProtFlashcMpc0PpcMpcMain,
    /// Region 34: Address 0x42151100, size 0x00000020.
    ProtFlashcMpc0PpcMpcPc,
    /// Region 35: Address 0x42151200, size 0x00000020.
    ProtFlashcMpc0PpcMpcRot,
    /// Region 36: Address 0x42152000, size 0x00000004.
    ProtFlashcFmCtlFmDft,
    /// Region 37: Address 0x42152040, size 0x00000008.
    ProtFlashcFmCtlFmBoot,
    /// Region 38: Address 0x42152800, size 0x00000800.
    ProtFlashcFmCtlFmMain,
    /// Region 39: Address 0x42160000, size 0x00000100.
    ProtMxcm33Cm33,
    /// Region 40: Address 0x42161000, size 0x00000004.
    ProtMxcm33Cm33S,
    /// Region 41: Address 0x42161004, size 0x00000004.
    ProtMxcm33Cm33Ns,
    /// Region 42: Address 0x42162000, size 0x00000080.
    ProtMxcm33BootPc0,
    /// Region 43: Address 0x42162100, size 0x00000004.
    ProtMxcm33BootPc1,
    /// Region 44: Address 0x42162140, size 0x00000004.
    ProtMxcm33BootPc2,
    /// Region 45: Address 0x42162180, size 0x00000004.
    ProtMxcm33BootPc3,
    /// Region 46: Address 0x421621c0, size 0x00000004.
    ProtMxcm33Boot,
    /// Region 47: Address 0x42168000, size 0x00000400.
    ProtMxcm33Cm33Int,
    /// Region 48: Address 0x42180000, size 0x00000080.
    ProtDw0Dw,
    /// Region 49: Address 0x42190000, size 0x00000080.
    ProtDw1Dw,
    /// Region 50: Address 0x42180100, size 0x00000080.
    ProtDw0DwCrc,
    /// Region 51: Address 0x42190100, size 0x00000080.
    ProtDw1DwCrc,
    /// Region 52: Address 0x42188000, size 0x00000040.
    ProtDw0ChStruct0Ch,
    /// Region 53: Address 0x42188040, size 0x00000040.
    ProtDw0ChStruct1Ch,
    /// Region 54: Address 0x42188080, size 0x00000040.
    ProtDw0ChStruct2Ch,
    /// Region 55: Address 0x421880c0, size 0x00000040.
    ProtDw0ChStruct3Ch,
    /// Region 56: Address 0x42188100, size 0x00000040.
    ProtDw0ChStruct4Ch,
    /// Region 57: Address 0x42188140, size 0x00000040.
    ProtDw0ChStruct5Ch,
    /// Region 58: Address 0x42188180, size 0x00000040.
    ProtDw0ChStruct6Ch,
    /// Region 59: Address 0x421881c0, size 0x00000040.
    ProtDw0ChStruct7Ch,
    /// Region 60: Address 0x42188200, size 0x00000040.
    ProtDw0ChStruct8Ch,
    /// Region 61: Address 0x42188240, size 0x00000040.
    ProtDw0ChStruct9Ch,
    /// Region 62: Address 0x42188280, size 0x00000040.
    ProtDw0ChStruct10Ch,
    /// Region 63: Address 0x421882c0, size 0x00000040.
    ProtDw0ChStruct11Ch,
    /// Region 64: Address 0x42188300, size 0x00000040.
    ProtDw0ChStruct12Ch,
    /// Region 65: Address 0x42188340, size 0x00000040.
    ProtDw0ChStruct13Ch,
    /// Region 66: Address 0x42188380, size 0x00000040.
    ProtDw0ChStruct14Ch,
    /// Region 67: Address 0x421883c0, size 0x00000040.
    ProtDw0ChStruct15Ch,
    /// Region 68: Address 0x42198000, size 0x00000040.
    ProtDw1ChStruct0Ch,
    /// Region 69: Address 0x42198040, size 0x00000040.
    ProtDw1ChStruct1Ch,
    /// Region 70: Address 0x42198080, size 0x00000040.
    ProtDw1ChStruct2Ch,
    /// Region 71: Address 0x421980c0, size 0x00000040.
    ProtDw1ChStruct3Ch,
    /// Region 72: Address 0x42198100, size 0x00000040.
    ProtDw1ChStruct4Ch,
    /// Region 73: Address 0x42198140, size 0x00000040.
    ProtDw1ChStruct5Ch,
    /// Region 74: Address 0x42198180, size 0x00000040.
    ProtDw1ChStruct6Ch,
    /// Region 75: Address 0x421981c0, size 0x00000040.
    ProtDw1ChStruct7Ch,
    /// Region 76: Address 0x42198200, size 0x00000040.
    ProtDw1ChStruct8Ch,
    /// Region 77: Address 0x42198240, size 0x00000040.
    ProtDw1ChStruct9Ch,
    /// Region 78: Address 0x42198280, size 0x00000040.
    ProtDw1ChStruct10Ch,
    /// Region 79: Address 0x421982c0, size 0x00000040.
    ProtDw1ChStruct11Ch,
    /// Region 80: Address 0x42198300, size 0x00000040.
    ProtDw1ChStruct12Ch,
    /// Region 81: Address 0x42198340, size 0x00000040.
    ProtDw1ChStruct13Ch,
    /// Region 82: Address 0x42198380, size 0x00000040.
    ProtDw1ChStruct14Ch,
    /// Region 83: Address 0x421983c0, size 0x00000040.
    ProtDw1ChStruct15Ch,
    /// Region 84: Address 0x421c0000, size 0x00000080.
    ProtCpussAllPc,
    /// Region 85: Address 0x421c0080, size 0x00000004.
    ProtCpussDdft,
    /// Region 86: Address 0x421c0100, size 0x00000004.
    ProtCpussCm33S,
    /// Region 87: Address 0x421c0120, size 0x00000004.
    ProtCpussCm33Ns,
    /// Region 88: Address 0x421c0200, size 0x00000010.
    ProtCpussMscInt,
    /// Region 89: Address 0x421c1000, size 0x00000004.
    ProtCpussAp,
    /// Region 90: Address 0x421c2000, size 0x00000008.
    ProtCpussBoot,
    /// Region 91: Address 0x421c4000, size 0x00000004.
    ProtMs0Main,
    /// Region 92: Address 0x421c4040, size 0x00000004.
    ProtMs4Main,
    /// Region 93: Address 0x421c4050, size 0x00000004.
    ProtMs5Main,
    /// Region 94: Address 0x421c4070, size 0x00000004.
    ProtMs7Main,
    /// Region 95: Address 0x421c41f0, size 0x00000004.
    ProtMs31Main,
    /// Region 96: Address 0x421c5000, size 0x00000004.
    ProtMsPc0Priv,
    /// Region 97: Address 0x421c51f0, size 0x00000004.
    ProtMsPc31Priv,
    /// Region 98: Address 0x421c5004, size 0x00000004.
    ProtMsPc0PrivMir,
    /// Region 99: Address 0x421c51f4, size 0x00000004.
    ProtMsPc31PrivMir,
    /// Region 100: Address 0x421c6000, size 0x00000040.
    ProtMscAcg,
    /// Region 101: Address 0x421c8000, size 0x00000008.
    ProtCpussSlCtlGroup,
    /// Region 102: Address 0x421d0000, size 0x00000020.
    ProtIpcStruct0Ipc,
    /// Region 103: Address 0x421d0020, size 0x00000020.
    ProtIpcStruct1Ipc,
    /// Region 104: Address 0x421d0040, size 0x00000020.
    ProtIpcStruct2Ipc,
    /// Region 105: Address 0x421d0060, size 0x00000020.
    ProtIpcStruct3Ipc,
    /// Region 106: Address 0x421d1000, size 0x00000010.
    ProtIpcIntrStruct0Intr,
    /// Region 107: Address 0x421d1020, size 0x00000010.
    ProtIpcIntrStruct1Intr,
    /// Region 108: Address 0x421e0000, size 0x00000100.
    ProtFaultStruct0Main,
    /// Region 109: Address 0x42200000, size 0x00000400.
    ProtSrssGeneral,
    /// Region 110: Address 0x42200400, size 0x00000040.
    ProtSrssGeneral2,
    /// Region 111: Address 0x422008a0, size 0x00000010.
    ProtSrssHibData,
    /// Region 112: Address 0x42201000, size 0x00001000.
    ProtSrssMain,
    /// Region 113: Address 0x42202000, size 0x00002000.
    ProtSrssSecure,
    /// Region 114: Address 0x42204000, size 0x00000008.
    ProtRamTrimSrssSram,
    /// Region 115: Address 0x42204200, size 0x00000040.
    ProtSrssDpll,
    /// Region 116: Address 0x4220c000, size 0x00000010.
    ProtSrssWdt,
    /// Region 117: Address 0x4220d000, size 0x00000040.
    ProtMain,
    /// Region 118: Address 0x42210000, size 0x00004000.
    ProtPwrmodePwrmode,
    /// Region 119: Address 0x42220000, size 0x00000100.
    ProtBackupBackup,
    /// Region 120: Address 0x42221000, size 0x00000010.
    ProtBackupBBreg0,
    /// Region 121: Address 0x42221010, size 0x00000010.
    ProtBackupBBreg1,
    /// Region 122: Address 0x42221020, size 0x00000020.
    ProtBackupBBreg2,
    /// Region 123: Address 0x42221080, size 0x00000040.
    ProtBackupBBreg3,
    /// Region 124: Address 0x4222ff00, size 0x00000004.
    ProtBackupBackupSecure,
    /// Region 125: Address 0x42230000, size 0x00000100.
    ProtCryptoliteMain,
    /// Region 126: Address 0x42230100, size 0x00000100.
    ProtCryptoliteTrng,
    /// Region 127: Address 0x42240000, size 0x00010000.
    ProtMxcordic10,
    /// Region 128: Address 0x42250000, size 0x00000004.
    ProtDebug600Debug600,
    /// Region 129: Address 0x42400000, size 0x00000008.
    ProtHsiomPrt0Prt,
    /// Region 130: Address 0x42400010, size 0x00000008.
    ProtHsiomPrt1Prt,
    /// Region 131: Address 0x42400020, size 0x00000008.
    ProtHsiomPrt2Prt,
    /// Region 132: Address 0x42400030, size 0x00000008.
    ProtHsiomPrt3Prt,
    /// Region 133: Address 0x42400040, size 0x00000008.
    ProtHsiomPrt4Prt,
    /// Region 134: Address 0x42400050, size 0x00000008.
    ProtHsiomPrt5Prt,
    /// Region 135: Address 0x42400060, size 0x00000008.
    ProtHsiomPrt6Prt,
    /// Region 136: Address 0x42400070, size 0x00000008.
    ProtHsiomPrt7Prt,
    /// Region 137: Address 0x42400080, size 0x00000008.
    ProtHsiomPrt8Prt,
    /// Region 138: Address 0x42400090, size 0x00000008.
    ProtHsiomPrt9Prt,
    /// Region 139: Address 0x42401000, size 0x00000004.
    ProtHsiomSecurePrt0SecurePrt,
    /// Region 140: Address 0x42401010, size 0x00000004.
    ProtHsiomSecurePrt1SecurePrt,
    /// Region 141: Address 0x42401020, size 0x00000004.
    ProtHsiomSecurePrt2SecurePrt,
    /// Region 142: Address 0x42401030, size 0x00000004.
    ProtHsiomSecurePrt3SecurePrt,
    /// Region 143: Address 0x42401040, size 0x00000004.
    ProtHsiomSecurePrt4SecurePrt,
    /// Region 144: Address 0x42401050, size 0x00000004.
    ProtHsiomSecurePrt5SecurePrt,
    /// Region 145: Address 0x42401060, size 0x00000004.
    ProtHsiomSecurePrt6SecurePrt,
    /// Region 146: Address 0x42401070, size 0x00000004.
    ProtHsiomSecurePrt7SecurePrt,
    /// Region 147: Address 0x42401080, size 0x00000004.
    ProtHsiomSecurePrt8SecurePrt,
    /// Region 148: Address 0x42401090, size 0x00000004.
    ProtHsiomSecurePrt9SecurePrt,
    /// Region 149: Address 0x42402000, size 0x00000010.
    ProtHsiomAmux,
    /// Region 150: Address 0x42402200, size 0x00000010.
    ProtHsiomMon,
    /// Region 151: Address 0x42410000, size 0x00000040.
    ProtGpioPrt0Prt,
    /// Region 152: Address 0x42410080, size 0x00000040.
    ProtGpioPrt1Prt,
    /// Region 153: Address 0x42410100, size 0x00000040.
    ProtGpioPrt2Prt,
    /// Region 154: Address 0x42410180, size 0x00000040.
    ProtGpioPrt3Prt,
    /// Region 155: Address 0x42410200, size 0x00000040.
    ProtGpioPrt4Prt,
    /// Region 156: Address 0x42410280, size 0x00000040.
    ProtGpioPrt5Prt,
    /// Region 157: Address 0x42410300, size 0x00000040.
    ProtGpioPrt6Prt,
    /// Region 158: Address 0x42410380, size 0x00000040.
    ProtGpioPrt7Prt,
    /// Region 159: Address 0x42410400, size 0x00000040.
    ProtGpioPrt8Prt,
    /// Region 160: Address 0x42410480, size 0x00000040.
    ProtGpioPrt9Prt,
    /// Region 161: Address 0x42410040, size 0x00000040.
    ProtGpioPrt0Cfg,
    /// Region 162: Address 0x424100c0, size 0x00000040.
    ProtGpioPrt1Cfg,
    /// Region 163: Address 0x42410140, size 0x00000040.
    ProtGpioPrt2Cfg,
    /// Region 164: Address 0x424101c0, size 0x00000040.
    ProtGpioPrt3Cfg,
    /// Region 165: Address 0x42410240, size 0x00000040.
    ProtGpioPrt4Cfg,
    /// Region 166: Address 0x424102c0, size 0x00000040.
    ProtGpioPrt5Cfg,
    /// Region 167: Address 0x42410340, size 0x00000040.
    ProtGpioPrt6Cfg,
    /// Region 168: Address 0x424103c0, size 0x00000040.
    ProtGpioPrt7Cfg,
    /// Region 169: Address 0x42410440, size 0x00000040.
    ProtGpioPrt8Cfg,
    /// Region 170: Address 0x424104c0, size 0x00000040.
    ProtGpioPrt9Cfg,
    /// Region 171: Address 0x42417000, size 0x00000004.
    ProtGpioSecGpio,
    /// Region 172: Address 0x42418000, size 0x00000040.
    ProtGpioGpio,
    /// Region 173: Address 0x42419000, size 0x00000008.
    ProtGpioTest,
    /// Region 174: Address 0x42420000, size 0x00000100.
    ProtSmartioPrt0Prt,
    /// Region 175: Address 0x42420100, size 0x00000100.
    ProtSmartioPrt1Prt,
    /// Region 176: Address 0x42420200, size 0x00000100.
    ProtSmartioPrt2Prt,
    /// Region 177: Address 0x42420300, size 0x00000100.
    ProtSmartioPrt3Prt,
    /// Region 178: Address 0x42420500, size 0x00000100.
    ProtSmartioPrt5Prt,
    /// Region 179: Address 0x42420600, size 0x00000100.
    ProtSmartioPrt6Prt,
    /// Region 180: Address 0x42420900, size 0x00000100.
    ProtSmartioPrt9Prt,
    /// Region 181: Address 0x42430000, size 0x00010000.
    ProtLpcomp,
    /// Region 182: Address 0x42600000, size 0x00001000.
    ProtDft,
    /// Region 183: Address 0x42610000, size 0x00000004.
    ProtEfuseCtl1,
    /// Region 184: Address 0x42610100, size 0x00000080.
    ProtEfuseCtl2,
    /// Region 185: Address 0x42610180, size 0x00000004.
    ProtEfuseCtl3,
    /// Region 186: Address 0x42610800, size 0x00000080.
    ProtEfuseDataBoot1,
    /// Region 187: Address 0x42800000, size 0x00000200.
    ProtCanfd0Ch0Ch,
    /// Region 188: Address 0x42800200, size 0x00000200.
    ProtCanfd0Ch1Ch,
    /// Region 189: Address 0x42801000, size 0x00000040.
    ProtCanfd0Main,
    /// Region 190: Address 0x42810000, size 0x00010000.
    ProtCanfd0Buf,
    /// Region 191: Address 0x42820000, size 0x00010000.
    ProtScb0,
    /// Region 192: Address 0x42840000, size 0x00010000.
    ProtScb1,
    /// Region 193: Address 0x42850000, size 0x00010000.
    ProtScb2,
    /// Region 194: Address 0x42860000, size 0x00010000.
    ProtScb3,
    /// Region 195: Address 0x42870000, size 0x00010000.
    ProtScb4,
    /// Region 196: Address 0x42c00000, size 0x00010000.
    ProtScb5,
    /// Region 197: Address 0x42a00000, size 0x00000100.
    ProtTcpwm0Grp0Cnt0Cnt,
    /// Region 198: Address 0x42a00100, size 0x00000100.
    ProtTcpwm0Grp0Cnt1Cnt,
    /// Region 199: Address 0x42a00200, size 0x00000100.
    ProtTcpwm0Grp0Cnt2Cnt,
    /// Region 200: Address 0x42a00300, size 0x00000100.
    ProtTcpwm0Grp0Cnt3Cnt,
    /// Region 201: Address 0x42a10000, size 0x00000100.
    ProtTcpwm0Grp1Cnt0Cnt,
    /// Region 202: Address 0x42a10100, size 0x00000100.
    ProtTcpwm0Grp1Cnt1Cnt,
    /// Region 203: Address 0x42a10200, size 0x00000100.
    ProtTcpwm0Grp1Cnt2Cnt,
    /// Region 204: Address 0x42a10300, size 0x00000100.
    ProtTcpwm0Grp1Cnt3Cnt,
    /// Region 205: Address 0x42a10400, size 0x00000100.
    ProtTcpwm0Grp1Cnt4Cnt,
    /// Region 206: Address 0x42a10500, size 0x00000100.
    ProtTcpwm0Grp1Cnt5Cnt,
    /// Region 207: Address 0x42a10600, size 0x00000100.
    ProtTcpwm0Grp1Cnt6Cnt,
    /// Region 208: Address 0x42a10700, size 0x00000100.
    ProtTcpwm0Grp1Cnt7Cnt,
    /// Region 209: Address 0x42a20000, size 0x00000100.
    ProtTcpwm0Grp2Cnt0Cnt,
    /// Region 210: Address 0x42a20100, size 0x00000100.
    ProtTcpwm0Grp2Cnt1Cnt,
    /// Region 211: Address 0x42a20200, size 0x00000100.
    ProtTcpwm0Grp2Cnt2Cnt,
    /// Region 212: Address 0x42a20300, size 0x00000100.
    ProtTcpwm0Grp2Cnt3Cnt,
    /// Region 213: Address 0x42a20400, size 0x00000100.
    ProtTcpwm0Grp2Cnt4Cnt,
    /// Region 214: Address 0x42a20500, size 0x00000100.
    ProtTcpwm0Grp2Cnt5Cnt,
    /// Region 215: Address 0x42a20600, size 0x00000100.
    ProtTcpwm0Grp2Cnt6Cnt,
    /// Region 216: Address 0x42a20700, size 0x00000100.
    ProtTcpwm0Grp2Cnt7Cnt,
    /// Region 217: Address 0x42a80000, size 0x00000040.
    ProtTcpwm0TrAllGfTrAllGf,
    /// Region 218: Address 0x42a90000, size 0x00000004.
    ProtTcpwm0TrAllSyncBypassTrAllSynBypass,
    /// Region 219: Address 0x42a90800, size 0x00000004.
    ProtTcpwm0Boot,
    /// Region 220: Address 0x42aa4000, size 0x00000200.
    ProtTcpwm0MotifGrp1Motif0Motif,
    /// Region 221: Address 0x42b00000, size 0x00100000.
    ProtMcpass,
}

impl PpcRegion {
    /// The number of the region.
    pub open spec fn region_index(self) -> nat {
        match self {
            PpcRegion::ProtPeri0Main => 0,
            PpcRegion::ProtPeri0Gr0Group => 1,
            PpcRegion::ProtPeri0Gr1Group => 2,
            PpcRegion::ProtPeri0Gr2Group => 3,
            PpcRegion::ProtPeri0Gr3Group => 4,
            PpcRegion::ProtPeri0Gr4Group => 5,
            PpcRegion::ProtPeri0Gr5Group => 6,
            PpcRegion::ProtPeri0Gr0Boot => 7,
            PpcRegion::ProtPeri0Gr1Boot => 8,
            PpcRegion::ProtPeri0Gr2Boot => 9,
            PpcRegion::ProtPeri0Gr3Boot => 10,
            PpcRegion::ProtPeri0Gr4Boot => 11,
            PpcRegion::ProtPeri0Gr5Boot => 12,
            PpcRegion::ProtPeri0Tr => 13,
            PpcRegion::ProtPpc0PpcPpcSecure => 14,
            PpcRegion::ProtPpc0PpcPpcNonsecure => 15,
            PpcRegion::ProtPeriPclk0Main => 16,
            PpcRegion::ProtCpuss => 17,
            PpcRegion::ProtRamc0Cm33 => 18,
            PpcRegion::ProtRamc0Boot => 19,
            PpcRegion::ProtRamc0RamPwr => 20,
            PpcRegion::ProtRamc0Mpc0PpcMpcMain => 21,
            PpcRegion::ProtRamc0Mpc0PpcMpcPc => 22,
            PpcRegion::ProtRamc0Mpc0PpcMpcRot => 23,
            PpcRegion::ProtPromcCm33 => 24,
            PpcRegion::ProtPromcMpc0PpcMpcMain => 25,
            PpcRegion::ProtPromcMpc0PpcMpcPc => 26,
            PpcRegion::ProtPromcMpc0PpcMpcRot => 27,
            PpcRegion::ProtFlashcBoot => 28,
            PpcRegion::ProtFlashcBoot1 => 29,
            PpcRegion::ProtFlashcMain => 30,
            PpcRegion::ProtFlashcDft => 31,
            PpcRegion::ProtFlashcEcc => 32,
            PpcRegion::ProtFlashcMpc0PpcMpcMain => 33,
            PpcRegion::ProtFlashcMpc0PpcMpcPc => 34,
            PpcRegion::ProtFlashcMpc0PpcMpcRot => 35,
            PpcRegion::ProtFlashcFmCtlFmDft => 36,
            PpcRegion::ProtFlashcFmCtlFmBoot => 37,
            PpcRegion::ProtFlashcFmCtlFmMain => 38,
            PpcRegion::ProtMxcm33Cm33 => 39,
            PpcRegion::ProtMxcm33Cm33S => 40,
            PpcRegion::ProtMxcm33Cm33Ns => 41,
            PpcRegion::ProtMxcm33BootPc0 => 42,
            PpcRegion::ProtMxcm33BootPc1 => 43,
            PpcRegion::ProtMxcm33BootPc2 => 44,
            PpcRegion::ProtMxcm33BootPc3 => 45,
            PpcRegion::ProtMxcm33Boot => 46,
            PpcRegion::ProtMxcm33Cm33Int => 47,
            PpcRegion::ProtDw0Dw => 48,
            PpcRegion::ProtDw1Dw => 49,
            PpcRegion::ProtDw0DwCrc => 50,
            PpcRegion::ProtDw1DwCrc => 51,
            PpcRegion::ProtDw0ChStruct0Ch => 52,
            PpcRegion::ProtDw0ChStruct1Ch => 53,
            PpcRegion::ProtDw0ChStruct2Ch => 54,
            PpcRegion::ProtDw0ChStruct3Ch => 55,
            PpcRegion::ProtDw0ChStruct4Ch => 56,
            PpcRegion::ProtDw0ChStruct5Ch => 57,
            PpcRegion::ProtDw0ChStruct6Ch => 58,
            PpcRegion::ProtDw0ChStruct7Ch => 59,
            PpcRegion::ProtDw0ChStruct8Ch => 60,
            PpcRegion::ProtDw0ChStruct9Ch => 61,
            PpcRegion::ProtDw0ChStruct10Ch => 62,
            PpcRegion::ProtDw0ChStruct11Ch => 63,
            PpcRegion::ProtDw0ChStruct12Ch => 64,
            PpcRegion::ProtDw0ChStruct13Ch => 65,
            PpcRegion::ProtDw0ChStruct14Ch => 66,
            PpcRegion::ProtDw0ChStruct15Ch => 67,
            PpcRegion::ProtDw1ChStruct0Ch => 68,
            PpcRegion::ProtDw1ChStruct1Ch => 69,
            PpcRegion::ProtDw1ChStruct2Ch => 70,
            PpcRegion::ProtDw1ChStruct3Ch => 71,
            PpcRegion::ProtDw1ChStruct4Ch => 72,
            PpcRegion::ProtDw1ChStruct5Ch => 73,
            PpcRegion::ProtDw1ChStruct6Ch => 74,
            PpcRegion::ProtDw1ChStruct7Ch => 75,
            PpcRegion::ProtDw1ChStruct8Ch => 76,
            PpcRegion::ProtDw1ChStruct9Ch => 77,
            PpcRegion::ProtDw1ChStruct10Ch => 78,
            PpcRegion::ProtDw1ChStruct11Ch => 79,
            PpcRegion::ProtDw1ChStruct12Ch => 80,
            PpcRegion::ProtDw1ChStruct13Ch => 81,
            PpcRegion::ProtDw1ChStruct14Ch => 82,
            PpcRegion::ProtDw1ChStruct15Ch => 83,
            PpcRegion::ProtCpussAllPc => 84,
            PpcRegion::ProtCpussDdft => 85,
            PpcRegion::ProtCpussCm33S => 86,
            PpcRegion::ProtCpussCm33Ns => 87,
            PpcRegion::ProtCpussMscInt => 88,
            PpcRegion::ProtCpussAp => 89,
            PpcRegion::ProtCpussBoot => 90,
            PpcRegion::ProtMs0Main => 91,
            PpcRegion::ProtMs4Main => 92,
            PpcRegion::ProtMs5Main => 93,
            PpcRegion::ProtMs7Main => 94,
            PpcRegion::ProtMs31Main => 95,
            PpcRegion::ProtMsPc0Priv => 96,
            PpcRegion::ProtMsPc31Priv => 97,
            PpcRegion::ProtMsPc0PrivMir => 98,
            PpcRegion::ProtMsPc31PrivMir => 99,
            PpcRegion::ProtMscAcg => 100,
            PpcRegion::ProtCpussSlCtlGroup => 101,
            PpcRegion::ProtIpcStruct0Ipc => 102,
            PpcRegion::ProtIpcStruct1Ipc => 103,
            PpcRegion::ProtIpcStruct2Ipc => 104,
            PpcRegion::ProtIpcStruct3Ipc => 105,
            PpcRegion::ProtIpcIntrStruct0Intr => 106,
            PpcRegion::ProtIpcIntrStruct1Intr => 107,
            PpcRegion::ProtFaultStruct0Main => 108,
            PpcRegion::ProtSrssGeneral => 109,
            PpcRegion::ProtSrssGeneral2 => 110,
            PpcRegion::ProtSrssHibData => 111,
            PpcRegion::ProtSrssMain => 112,
            PpcRegion::ProtSrssSecure => 113,
            PpcRegion::ProtRamTrimSrssSram => 114,
            PpcRegion::ProtSrssDpll => 115,
            PpcRegion::ProtSrssWdt => 116,
            PpcRegion::ProtMain => 117,
            PpcRegion::ProtPwrmodePwrmode => 118,
            PpcRegion::ProtBackupBackup => 119,
            PpcRegion::ProtBackupBBreg0 => 120,
            PpcRegion::ProtBackupBBreg1 => 121,
            PpcRegion::ProtBackupBBreg2 => 122,
            PpcRegion::ProtBackupBBreg3 => 123,
            PpcRegion::ProtBackupBackupSecure => 124,
            PpcRegion::ProtCryptoliteMain => 125,
            PpcRegion::ProtCryptoliteTrng => 126,
            PpcRegion::ProtMxcordic10 => 127,
            PpcRegion::ProtDebug600Debug600 => 128,
            PpcRegion::ProtHsiomPrt0Prt => 129,
            PpcRegion::ProtHsiomPrt1Prt => 130,
            PpcRegion::ProtHsiomPrt2Prt => 131,
            PpcRegion::ProtHsiomPrt3Prt => 132,
            PpcRegion::ProtHsiomPrt4Prt => 133,
            PpcRegion::ProtHsiomPrt5Prt => 134,
            PpcRegion::ProtHsiomPrt6Prt => 135,
            PpcRegion::ProtHsiomPrt7Prt => 136,
            PpcRegion::ProtHsiomPrt8Prt => 137,
            PpcRegion::ProtHsiomPrt9Prt => 138,
            PpcRegion::ProtHsiomSecurePrt0SecurePrt => 139,
            PpcRegion::ProtHsiomSecurePrt1SecurePrt => 140,
            PpcRegion::ProtHsiomSecurePrt2SecurePrt => 141,
            PpcRegion::ProtHsiomSecurePrt3SecurePrt => 142,
            PpcRegion::ProtHsiomSecurePrt4SecurePrt => 143,
            PpcRegion::ProtHsiomSecurePrt5SecurePrt => 144,
            PpcRegion::ProtHsiomSecurePrt6SecurePrt => 145,
            PpcRegion::ProtHsiomSecurePrt7SecurePrt => 146,
            PpcRegion::ProtHsiomSecurePrt8SecurePrt => 147,
            PpcRegion::ProtHsiomSecurePrt9SecurePrt => 148,
            PpcRegion::ProtHsiomAmux => 149,
            PpcRegion::ProtHsiomMon => 150,
            PpcRegion::ProtGpioPrt0Prt => 151,
            PpcRegion::ProtGpioPrt1Prt => 152,
            PpcRegion::ProtGpioPrt2Prt => 153,
            PpcRegion::ProtGpioPrt3Prt => 154,
            PpcRegion::ProtGpioPrt4Prt => 155,
            PpcRegion::ProtGpioPrt5Prt => 156,
            PpcRegion::ProtGpioPrt6Prt => 157,
            PpcRegion::ProtGpioPrt7Prt => 158,
            PpcRegion::ProtGpioPrt8Prt => 159,
            PpcRegion::ProtGpioPrt9Prt => 160,
            PpcRegion::ProtGpioPrt0Cfg => 161,
            PpcRegion::ProtGpioPrt1Cfg => 162,
            PpcRegion::ProtGpioPrt2Cfg => 163,
            PpcRegion::ProtGpioPrt3Cfg => 164,
            PpcRegion::ProtGpioPrt4Cfg => 165,
            PpcRegion::ProtGpioPrt5Cfg => 166,
            PpcRegion::ProtGpioPrt6Cfg => 167,
            PpcRegion::ProtGpioPrt7Cfg => 168,
            PpcRegion::ProtGpioPrt8Cfg => 169,
            PpcRegion::ProtGpioPrt9Cfg => 170,
            PpcRegion::ProtGpioSecGpio => 171,
            PpcRegion::ProtGpioGpio => 172,
            PpcRegion::ProtGpioTest => 173,
            PpcRegion::ProtSmartioPrt0Prt => 174,
            PpcRegion::ProtSmartioPrt1Prt => 175,
            PpcRegion::ProtSmartioPrt2Prt => 176,
            PpcRegion::ProtSmartioPrt3Prt => 177,
            PpcRegion::ProtSmartioPrt5Prt => 178,
            PpcRegion::ProtSmartioPrt6Prt => 179,
            PpcRegion::ProtSmartioPrt9Prt => 180,
            PpcRegion::ProtLpcomp => 181,
            PpcRegion::ProtDft => 182,
            PpcRegion::ProtEfuseCtl1 => 183,
            PpcRegion::ProtEfuseCtl2 => 184,
            PpcRegion::ProtEfuseCtl3 => 185,
            PpcRegion::ProtEfuseDataBoot1 => 186,
            PpcRegion::ProtCanfd0Ch0Ch => 187,
            PpcRegion::ProtCanfd0Ch1Ch => 188,
            PpcRegion::ProtCanfd0Main => 189,
            PpcRegion::ProtCanfd0Buf => 190,
            PpcRegion::ProtScb0 => 191,
            PpcRegion::ProtScb1 => 192,
            PpcRegion::ProtScb2 => 193,
            PpcRegion::ProtScb3 => 194,
            PpcRegion::ProtScb4 => 195,
            PpcRegion::ProtScb5 => 196,
            PpcRegion::ProtTcpwm0Grp0Cnt0Cnt => 197,
            PpcRegion::ProtTcpwm0Grp0Cnt1Cnt => 198,
            PpcRegion::ProtTcpwm0Grp0Cnt2Cnt => 199,
            PpcRegion::ProtTcpwm0Grp0Cnt3Cnt => 200,
            PpcRegion::ProtTcpwm0Grp1Cnt0Cnt => 201,
            PpcRegion::ProtTcpwm0Grp1Cnt1Cnt => 202,
            PpcRegion::ProtTcpwm0Grp1Cnt2Cnt => 203,
            PpcRegion::ProtTcpwm0Grp1Cnt3Cnt => 204,
            PpcRegion::ProtTcpwm0Grp1Cnt4Cnt => 205,
            PpcRegion::ProtTcpwm0Grp1Cnt5Cnt => 206,
            PpcRegion::ProtTcpwm0Grp1Cnt6Cnt => 207,
            PpcRegion::ProtTcpwm0Grp1Cnt7Cnt => 208,
            PpcRegion::ProtTcpwm0Grp2Cnt0Cnt => 209,
            PpcRegion::ProtTcpwm0Grp2Cnt1Cnt => 210,
            PpcRegion::ProtTcpwm0Grp2Cnt2Cnt => 211,
            PpcRegion::ProtTcpwm0Grp2Cnt3Cnt => 212,
            PpcRegion::ProtTcpwm0Grp2Cnt4Cnt => 213,
            PpcRegion::ProtTcpwm0Grp2Cnt5Cnt => 214,
            PpcRegion::ProtTcpwm0Grp2Cnt6Cnt => 215,
            PpcRegion::ProtTcpwm0Grp2Cnt7Cnt => 216,
            PpcRegion::ProtTcpwm0TrAllGfTrAllGf => 217,
            PpcRegion::ProtTcpwm0TrAllSyncBypassTrAllSynBypass => 218,
            PpcRegion::ProtTcpwm0Boot => 219,
            PpcRegion::ProtTcpwm0MotifGrp1Motif0Motif => 220,
            PpcRegion::ProtMcpass => 221,
        }
    }

    /// The number of the region.
    pub fn index(&self) -> (r: usize)
        ensures
            r == self.region_index(),
            r < PPC_REGION_COUNT,
    {
        match self {
            PpcRegion::ProtPeri0Main => 0,
            PpcRegion::ProtPeri0Gr0Group => 1,
            PpcRegion::ProtPeri0Gr1Group => 2,
            PpcRegion::ProtPeri0Gr2Group => 3,
            PpcRegion::ProtPeri0Gr3Group => 4,
            PpcRegion::ProtPeri0Gr4Group => 5,
            PpcRegion::ProtPeri0Gr5Group => 6,
            PpcRegion::ProtPeri0Gr0Boot => 7,
            PpcRegion::ProtPeri0Gr1Boot => 8,
            PpcRegion::ProtPeri0Gr2Boot => 9,
            PpcRegion::ProtPeri0Gr3Boot => 10,
            PpcRegion::ProtPeri0Gr4Boot => 11,
            PpcRegion::ProtPeri0Gr5Boot => 12,
            PpcRegion::ProtPeri0Tr => 13,
            PpcRegion::ProtPpc0PpcPpcSecure => 14,
            PpcRegion::ProtPpc0PpcPpcNonsecure => 15,
            PpcRegion::ProtPeriPclk0Main => 16,
            PpcRegion::ProtCpuss => 17,
            PpcRegion::ProtRamc0Cm33 => 18,
            PpcRegion::ProtRamc0Boot => 19,
            PpcRegion::ProtRamc0RamPwr => 20,
            PpcRegion::ProtRamc0Mpc0PpcMpcMain => 21,
            PpcRegion::ProtRamc0Mpc0PpcMpcPc => 22,
            PpcRegion::ProtRamc0Mpc0PpcMpcRot => 23,
            PpcRegion::ProtPromcCm33 => 24,
            PpcRegion::ProtPromcMpc0PpcMpcMain => 25,
            PpcRegion::ProtPromcMpc0PpcMpcPc => 26,
            PpcRegion::ProtPromcMpc0PpcMpcRot => 27,
            PpcRegion::ProtFlashcBoot => 28,
            PpcRegion::ProtFlashcBoot1 => 29,
            PpcRegion::ProtFlashcMain => 30,
            PpcRegion::ProtFlashcDft => 31,
            PpcRegion::ProtFlashcEcc => 32,
            PpcRegion::ProtFlashcMpc0PpcMpcMain => 33,
            PpcRegion::ProtFlashcMpc0PpcMpcPc => 34,
            PpcRegion::ProtFlashcMpc0PpcMpcRot => 35,
            PpcRegion::ProtFlashcFmCtlFmDft => 36,
            PpcRegion::ProtFlashcFmCtlFmBoot => 37,
            PpcRegion::ProtFlashcFmCtlFmMain => 38,
            PpcRegion::ProtMxcm33Cm33 => 39,
            PpcRegion::ProtMxcm33Cm33S => 40,
            PpcRegion::ProtMxcm33Cm33Ns => 41,
            PpcRegion::ProtMxcm33BootPc0 => 42,
            PpcRegion::ProtMxcm33BootPc1 => 43,
            PpcRegion::ProtMxcm33BootPc2 => 44,
            PpcRegion::ProtMxcm33BootPc3 => 45,
            PpcRegion::ProtMxcm33Boot => 46,
            PpcRegion::ProtMxcm33Cm33Int => 47,
            PpcRegion::ProtDw0Dw => 48,
            PpcRegion::ProtDw1Dw => 49,
            PpcRegion::ProtDw0DwCrc => 50,
            PpcRegion::ProtDw1DwCrc => 51,
            PpcRegion::ProtDw0ChStruct0Ch => 52,
            PpcRegion::ProtDw0ChStruct1Ch => 53,
            PpcRegion::ProtDw0ChStruct2Ch => 54,
            PpcRegion::ProtDw0ChStruct3Ch => 55,
            PpcRegion::ProtDw0ChStruct4Ch => 56,
            PpcRegion::ProtDw0ChStruct5Ch => 57,
            PpcRegion::ProtDw0ChStruct6Ch => 58,
            PpcRegion::ProtDw0ChStruct7Ch => 59,
            PpcRegion::ProtDw0ChStruct8Ch => 60,
            PpcRegion::ProtDw0ChStruct9Ch => 61,
            PpcRegion::ProtDw0ChStruct10Ch => 62,
            PpcRegion::ProtDw0ChStruct11Ch => 63,
            PpcRegion::ProtDw0ChStruct12Ch => 64,
            PpcRegion::ProtDw0ChStruct13Ch => 65,
            PpcRegion::ProtDw0ChStruct14Ch => 66,
            PpcRegion::ProtDw0ChStruct15Ch => 67,
            PpcRegion::ProtDw1ChStruct0Ch => 68,
            PpcRegion::ProtDw1ChStruct1Ch => 69,
            PpcRegion::ProtDw1ChStruct2Ch => 70,
            PpcRegion::ProtDw1ChStruct3Ch => 71,
            PpcRegion::ProtDw1ChStruct4Ch => 72,
            PpcRegion::ProtDw1ChStruct5Ch => 73,
            PpcRegion::ProtDw1ChStruct6Ch => 74,
            PpcRegion::ProtDw1ChStruct7Ch => 75,
            PpcRegion::ProtDw1ChStruct8Ch => 76,
            PpcRegion::ProtDw1ChStruct9Ch => 77,
            PpcRegion::ProtDw1ChStruct10Ch => 78,
            PpcRegion::ProtDw1ChStruct11Ch => 79,
            PpcRegion::ProtDw1ChStruct12Ch => 80,
            PpcRegion::ProtDw1ChStruct13Ch => 81,
            PpcRegion::ProtDw1ChStruct14Ch => 82,
            PpcRegion::ProtDw1ChStruct15Ch => 83,
            PpcRegion::ProtCpussAllPc => 84,
            PpcRegion::ProtCpussDdft => 85,
            PpcRegion::ProtCpussCm33S => 86,
            PpcRegion::ProtCpussCm33Ns => 87,
            PpcRegion::ProtCpussMscInt => 88,
            PpcRegion::ProtCpussAp => 89,
            PpcRegion::ProtCpussBoot => 90,
            PpcRegion::ProtMs0Main => 91,
            PpcRegion::ProtMs4Main => 92,
            PpcRegion::ProtMs5Main => 93,
            PpcRegion::ProtMs7Main => 94,
            PpcRegion::ProtMs31Main => 95,
            PpcRegion::ProtMsPc0Priv => 96,
            PpcRegion::ProtMsPc31Priv => 97,
            PpcRegion::ProtMsPc0PrivMir => 98,
            PpcRegion::ProtMsPc31PrivMir => 99,
            PpcRegion::ProtMscAcg => 100,
            PpcRegion::ProtCpussSlCtlGroup => 101,
            PpcRegion::ProtIpcStruct0Ipc => 102,
            PpcRegion::ProtIpcStruct1Ipc => 103,
            PpcRegion::ProtIpcStruct2Ipc => 104,
            PpcRegion::ProtIpcStruct3Ipc => 105,
            PpcRegion::ProtIpcIntrStruct0Intr => 106,
            PpcRegion::ProtIpcIntrStruct1Intr => 107,
            PpcRegion::ProtFaultStruct0Main => 108,
            PpcRegion::ProtSrssGeneral => 109,
            PpcRegion::ProtSrssGeneral2 => 110,
            PpcRegion::ProtSrssHibData => 111,
            PpcRegion::ProtSrssMain => 112,
            PpcRegion::ProtSrssSecure => 113,
            PpcRegion::ProtRamTrimSrssSram => 114,
            PpcRegion::ProtSrssDpll => 115,
            PpcRegion::ProtSrssWdt => 116,
            PpcRegion::ProtMain => 117,
            PpcRegion::ProtPwrmodePwrmode => 118,
            PpcRegion::ProtBackupBackup => 119,
            PpcRegion::ProtBackupBBreg0 => 120,
            PpcRegion::ProtBackupBBreg1 => 121,
            PpcRegion::ProtBackupBBreg2 => 122,
            PpcRegion::ProtBackupBBreg3 => 123,
            PpcRegion::ProtBackupBackupSecure => 124,
            PpcRegion::ProtCryptoliteMain => 125,
            PpcRegion::ProtCryptoliteTrng => 126,
            PpcRegion::ProtMxcordic10 => 127,
            PpcRegion::ProtDebug600Debug600 => 128,
            PpcRegion::ProtHsiomPrt0Prt => 129,
            PpcRegion::ProtHsiomPrt1Prt => 130,
            PpcRegion::ProtHsiomPrt2Prt => 131,
            PpcRegion::ProtHsiomPrt3Prt => 132,
            PpcRegion::ProtHsiomPrt4Prt => 133,
            PpcRegion::ProtHsiomPrt5Prt => 134,
            PpcRegion::ProtHsiomPrt6Prt => 135,
            PpcRegion::ProtHsiomPrt7Prt => 136,
            PpcRegion::ProtHsiomPrt8Prt => 137,
            PpcRegion::ProtHsiomPrt9Prt => 138,
            PpcRegion::ProtHsiomSecurePrt0SecurePrt => 139,
            PpcRegion::ProtHsiomSecurePrt1SecurePrt => 140,
            PpcRegion::ProtHsiomSecurePrt2SecurePrt => 141,
            PpcRegion::ProtHsiomSecurePrt3SecurePrt => 142,
            PpcRegion::ProtHsiomSecurePrt4SecurePrt => 143,
            PpcRegion::ProtHsiomSecurePrt5SecurePrt => 144,
            PpcRegion::ProtHsiomSecurePrt6SecurePrt => 145,
            PpcRegion::ProtHsiomSecurePrt7SecurePrt => 146,
            PpcRegion::ProtHsiomSecurePrt8SecurePrt => 147,
            PpcRegion::ProtHsiomSecurePrt9SecurePrt => 148,
            PpcRegion::ProtHsiomAmux => 149,
            PpcRegion::ProtHsiomMon => 150,
            PpcRegion::ProtGpioPrt0Prt => 151,
            PpcRegion::ProtGpioPrt1Prt => 152,
            PpcRegion::ProtGpioPrt2Prt => 153,
            PpcRegion::ProtGpioPrt3Prt => 154,
            PpcRegion::ProtGpioPrt4Prt => 155,
            PpcRegion::ProtGpioPrt5Prt => 156,
            PpcRegion::ProtGpioPrt6Prt => 157,
            PpcRegion::ProtGpioPrt7Prt => 158,
            PpcRegion::ProtGpioPrt8Prt => 159,
            PpcRegion::ProtGpioPrt9Prt => 160,
            PpcRegion::ProtGpioPrt0Cfg => 161,
            PpcRegion::ProtGpioPrt1Cfg => 162,
            PpcRegion::ProtGpioPrt2Cfg => 163,
            PpcRegion::ProtGpioPrt3Cfg => 164,
            PpcRegion::ProtGpioPrt4Cfg => 165,
            PpcRegion::ProtGpioPrt5Cfg => 166,
            PpcRegion::ProtGpioPrt6Cfg => 167,
            PpcRegion::ProtGpioPrt7Cfg => 168,
            PpcRegion::ProtGpioPrt8Cfg => 169,
            PpcRegion::ProtGpioPrt9Cfg => 170,
            PpcRegion::ProtGpioSecGpio => 171,
            PpcRegion::ProtGpioGpio => 172,
            PpcRegion::ProtGpioTest => 173,
            PpcRegion::ProtSmartioPrt0Prt => 174,
            PpcRegion::ProtSmartioPrt1Prt => 175,
            PpcRegion::ProtSmartioPrt2Prt => 176,
            PpcRegion::ProtSmartioPrt3Prt => 177,
            PpcRegion::ProtSmartioPrt5Prt => 178,
            PpcRegion::ProtSmartioPrt6Prt => 179,
            PpcRegion::ProtSmartioPrt9Prt => 180,
            PpcRegion::ProtLpcomp => 181,
            PpcRegion::ProtDft => 182,
            PpcRegion::ProtEfuseCtl1 => 183,
            PpcRegion::ProtEfuseCtl2 => 184,
            PpcRegion::ProtEfuseCtl3 => 185,
            PpcRegion::ProtEfuseDataBoot1 => 186,
            PpcRegion::ProtCanfd0Ch0Ch => 187,
            PpcRegion::ProtCanfd0Ch1Ch => 188,
            PpcRegion::ProtCanfd0Main => 189,
            PpcRegion::ProtCanfd0Buf => 190,
            PpcRegion::ProtScb0 => 191,
            PpcRegion::ProtScb1 => 192,
            PpcRegion::ProtScb2 => 193,
            PpcRegion::ProtScb3 => 194,
            PpcRegion::ProtScb4 => 195,
            PpcRegion::ProtScb5 => 196,
            PpcRegion::ProtTcpwm0Grp0Cnt0Cnt => 197,
            PpcRegion::ProtTcpwm0Grp0Cnt1Cnt => 198,
            PpcRegion::ProtTcpwm0Grp0Cnt2Cnt => 199,
            PpcRegion::ProtTcpwm0Grp0Cnt3Cnt => 200,
            PpcRegion::ProtTcpwm0Grp1Cnt0Cnt => 201,
            PpcRegion::ProtTcpwm0Grp1Cnt1Cnt => 202,
            PpcRegion::ProtTcpwm0Grp1Cnt2Cnt => 203,
            PpcRegion::ProtTcpwm0Grp1Cnt3Cnt => 204,
            PpcRegion::ProtTcpwm0Grp1Cnt4Cnt => 205,
            PpcRegion::ProtTcpwm0Grp1Cnt5Cnt => 206,
            PpcRegion::ProtTcpwm0Grp1Cnt6Cnt => 207,
            PpcRegion::ProtTcpwm0Grp1Cnt7Cnt => 208,
            PpcRegion::ProtTcpwm0Grp2Cnt0Cnt => 209,
            PpcRegion::ProtTcpwm0Grp2Cnt1Cnt => 210,
            PpcRegion::ProtTcpwm0Grp2Cnt2Cnt => 211,
            PpcRegion::ProtTcpwm0Grp2Cnt3Cnt => 212,
            PpcRegion::ProtTcpwm0Grp2Cnt4Cnt => 213,
            PpcRegion::ProtTcpwm0Grp2Cnt5Cnt => 214,
            PpcRegion::ProtTcpwm0Grp2Cnt6Cnt => 215,
            PpcRegion::ProtTcpwm0Grp2Cnt7Cnt => 216,
            PpcRegion::ProtTcpwm0TrAllGfTrAllGf => 217,
            PpcRegion::ProtTcpwm0TrAllSyncBypassTrAllSynBypass => 218,
            PpcRegion::ProtTcpwm0Boot => 219,
            PpcRegion::ProtTcpwm0MotifGrp1Motif0Motif => 220,
            PpcRegion::ProtMcpass => 221,
        }
    }
}

/// The security violation response, the RESP_CFG field (bit 0) of the PPC control
/// register.
#[derive(Clone, Copy, Debug, PartialEq, Eq, Structural)]
pub enum PpcViolationResponse {
    /// Read-zero, write-ignore.
    Rzwi,
    /// Bus error.
    BusError,
}

/// The control register word that selects a violation response.
pub open spec fn response_word(cfg: PpcViolationResponse) -> u32 {
    match cfg {
        PpcViolationResponse::Rzwi => 0,
        PpcViolationResponse::BusError => 1,
    }
}

/// The address of the attribute register, in the array of 32 that starts at `base`,
/// that holds the bit of a region: 32 regions per register.
pub open spec fn attr_register(base: u32, region: PpcRegion) -> u32 {
    (base + 4 * (region.region_index() / 32)) as u32
}

/// The bit of a region in its attribute register.
pub open spec fn attr_bit(region: PpcRegion) -> u32 {
    (region.region_index() % 32) as u32
}

/// The operations of `set_trustzone_access`: in the non-secure attribute register
/// the region's bit becomes `non_secure`; in the secure and the non-secure privilege
/// attribute registers it becomes the negation of the privilege requirement, as a
/// set bit there allows unprivileged access.
pub open spec fn trustzone_ops(
    region: PpcRegion,
    non_secure: bool,
    nsec_priviledged: bool,
    sec_priviledged: bool,
) -> Seq<RegOp> {
    seq![
        bit_modify(attr_register(PPC_NS_ATTRS, region), attr_bit(region), non_secure),
        bit_modify(attr_register(PPC_S_P_ATTRS, region), attr_bit(region), !sec_priviledged),
        bit_modify(attr_register(PPC_NS_P_ATTRS, region), attr_bit(region), !nsec_priviledged),
    ]
}

/// The address of the protection context mask register that holds a region's
/// byte: 4 regions per register.
pub open spec fn pc_mask_register(region: PpcRegion) -> u32 {
    (PPC_PC_MASKS + 4 * (region.region_index() / 4)) as u32
}

/// The bit offset of a region's byte in its protection context mask register.
pub open spec fn pc_mask_shift(region: PpcRegion) -> u32 {
    ((region.region_index() % 4) * 8) as u32
}

/// The operation of `set_protection_context`: the region's byte in its protection
/// context mask register becomes `context`.
pub open spec fn protection_context_op(region: PpcRegion, context: u8) -> RegOp {
    RegOp::Modify {
        addr: pc_mask_register(region),
        mask: 0xffu32 << pc_mask_shift(region),
        value: (context as u32) << pc_mask_shift(region),
    }
}

/// Configure the security and privilege attributes of a region: the three
/// read-modify-write operations to perform, in order.
pub fn set_trustzone_access(
    region: PpcRegion,
    non_secure: bool,
    nsec_priviledged: bool,
    sec_priviledged: bool,
) -> (ops: Vec<RegOp>)
    ensures
        ops@ == trustzone_ops(region, non_secure, nsec_priviledged, sec_priviledged),
{
    let region_index = region.index();
    // 32 regions per 32-bit register
    let reg_index = region_index / 32;
    let bit_index = (region_index % 32) as u32;
    let offset = (reg_index as u32) * 4;
    let bit: u32 = 1u32 << bit_index;

    let mut ops: Vec<RegOp> = Vec::new();
    ops.push(
        RegOp::Modify {
            addr: PPC_NS_ATTRS + offset,
            mask: bit,
            value: if non_secure { bit } else { 0 },
        },
    );
    // a set bit allows unprivileged access
    ops.push(
        RegOp::Modify {
            addr: PPC_S_P_ATTRS + offset,
            mask: bit,
            value: if !sec_priviledged { bit } else { 0 },
        },
    );
    ops.push(
        RegOp::Modify {
            addr: PPC_NS_P_ATTRS + offset,
            mask: bit,
            value: if !nsec_priviledged { bit } else { 0 },
        },
    );
    assert(ops@ =~= trustzone_ops(region, non_secure, nsec_priviledged, sec_priviledged));
    ops
}

/// Set the protection context mask of a region: the read-modify-write operation on
/// the protection context mask register that holds the region's byte.
pub fn set_protection_context(region: PpcRegion, context: u8) -> (op: RegOp)
    ensures
        op == protection_context_op(region, context),
{
    let region_index = region.index();
    // 4 regions per 32-bit register
    let reg_index = region_index / 4;
    let bit_index = ((region_index % 4) * 8) as u32;
    RegOp::Modify {
        addr: PPC_PC_MASKS + (reg_index as u32) * 4,
        mask: 0xFFu32 << bit_index,
        value: (context as u32) << bit_index,
    }
}

/// Lock the protection contexts: the write of `0xFF` into the lock mask register.
pub fn lock_protection_contexts() -> (op: RegOp)
    ensures
        op == (RegOp::Write { addr: PPC_LOCK_MASK, value: 0xff }),
{
    RegOp::Write { addr: PPC_LOCK_MASK, value: 0xFF }
}

/// Configure the security violation response: the write into the control register.
pub fn set_viloation_response(cfg: PpcViolationResponse) -> (op: RegOp)
    ensures
        op == (RegOp::Write { addr: PPC_CTL, value: response_word(cfg) }),
{
    match cfg {
        PpcViolationResponse::Rzwi => RegOp::Write { addr: PPC_CTL, value: 0 },
        PpcViolationResponse::BusError => RegOp::Write { addr: PPC_CTL, value: 1 },
    }
}


/// Setting the TrustZone access of a region touches one bit, the region's own, in
/// each of the three attribute arrays, within their 32 registers: afterwards that
/// bit holds the requested attribute, and every other bit of the three registers,
/// the attributes of the other regions, keeps its value.
pub proof fn lemma_trustzone_access(
    region: PpcRegion,
    non_secure: bool,
    nsec_priviledged: bool,
    sec_priviledged: bool,
    old_ns: u32,
    old_s_p: u32,
    old_ns_p: u32,
)
    ensures
        ({
            let ops = trustzone_ops(region, non_secure, nsec_priviledged, sec_priviledged);
            let bit = attr_bit(region);
            &&& ops[0].addr_of() == attr_register(PPC_NS_ATTRS, region)
            &&& ops[1].addr_of() == attr_register(PPC_S_P_ATTRS, region)
            &&& ops[2].addr_of() == attr_register(PPC_NS_P_ATTRS, region)
            &&& region.region_index() / 32 < 32
            &&& bit_is_set(ops[0].result_on(old_ns), bit) == non_secure
            &&& bit_is_set(ops[1].result_on(old_s_p), bit) == !sec_priviledged
            &&& bit_is_set(ops[2].result_on(old_ns_p), bit) == !nsec_priviledged
            &&& forall|other: u32|
                other < 32 && other != bit ==> {
                    &&& bit_is_set(ops[0].result_on(old_ns), other) == bit_is_set(old_ns, other)
                    &&& bit_is_set(ops[1].result_on(old_s_p), other) == bit_is_set(
                        old_s_p,
                        other,
                    )
                    &&& bit_is_set(ops[2].result_on(old_ns_p), other) == bit_is_set(
                        old_ns_p,
                        other,
                    )
                }
        }),
{
    let bit = attr_bit(region);
    let ns_addr = attr_register(PPC_NS_ATTRS, region);
    let s_p_addr = attr_register(PPC_S_P_ATTRS, region);
    let ns_p_addr = attr_register(PPC_NS_P_ATTRS, region);
    lemma_bit_modify(ns_addr, bit, non_secure, old_ns);
    lemma_bit_modify(s_p_addr, bit, !sec_priviledged, old_s_p);
    lemma_bit_modify(ns_p_addr, bit, !nsec_priviledged, old_ns_p);
    let ops = trustzone_ops(region, non_secure, nsec_priviledged, sec_priviledged);
    assert forall|other: u32| other < 32 && other != bit implies {
        &&& bit_is_set(ops[0].result_on(old_ns), other) == bit_is_set(old_ns, other)
        &&& bit_is_set(ops[1].result_on(old_s_p), other) == bit_is_set(old_s_p, other)
        &&& bit_is_set(ops[2].result_on(old_ns_p), other) == bit_is_set(old_ns_p, other)
    } by {
        assert(bit_is_set(bit_modify(ns_addr, bit, non_secure).result_on(old_ns), other)
            == bit_is_set(old_ns, other));
        assert(bit_is_set(bit_modify(s_p_addr, bit, !sec_priviledged).result_on(old_s_p), other)
            == bit_is_set(old_s_p, other));
        assert(bit_is_set(bit_modify(ns_p_addr, bit, !nsec_priviledged).result_on(old_ns_p), other)
            == bit_is_set(old_ns_p, other));
    }
}

/// Setting the protection context of a region touches its own byte only, in a
/// register within the array of 1024: afterwards that byte holds the context, and
/// the three other bytes of the register, those of the neighbouring regions, keep
/// their values.
pub proof fn lemma_protection_context(region: PpcRegion, context: u8, old: u32)
    ensures
        ({
            let op = protection_context_op(region, context);
            let shift = pc_mask_shift(region);
            &&& op.addr_of() == pc_mask_register(region)
            &&& region.region_index() / 4 < 1024
            &&& field_read(op.result_on(old), 0xff, shift) == context
            &&& forall|other: u32|
                (other == 0 || other == 8 || other == 16 || other == 24) && other != shift
                    ==> #[trigger] field_read(op.result_on(old), 0xff, other) == field_read(
                    old,
                    0xff,
                    other,
                )
        }),
{
    let shift = pc_mask_shift(region);
    let c = context as u32;
    let r = protection_context_op(region, context).result_on(old);
    assert(r == (old & !(0xffu32 << shift)) | (c << shift));
    assert(shift == 0 || shift == 8 || shift == 16 || shift == 24);
    assert((((old & !(0xffu32 << shift)) | (c << shift)) >> shift) & 0xff == c) by (bit_vector)
        requires
            shift == 0 || shift == 8 || shift == 16 || shift == 24,
            c < 256,
    ;
    assert forall|t: u32|
        (t == 0 || t == 8 || t == 16 || t == 24) && t != shift implies #[trigger] field_read(
        r,
        0xff,
        t,
    ) == field_read(old, 0xff, t) by {
        assert((((old & !(0xffu32 << shift)) | (c << shift)) >> t) & 0xff == (old >> t) & 0xff)
            by (bit_vector)
            requires
                shift == 0 || shift == 8 || shift == 16 || shift == 24,
                t == 0 || t == 8 || t == 16 || t == 24,
                t != shift,
                c < 256,
        ;
    }
}

/// Setting the TrustZone access of two different regions gives the same attribute
/// registers in either order: for every register and every content it had before,
/// performing the operations of one region then the other leaves it as the other
/// order does.
pub proof fn lemma_trustzone_commute(
    a: PpcRegion,
    a_non_secure: bool,
    a_nsec_priviledged: bool,
    a_sec_priviledged: bool,
    b: PpcRegion,
    b_non_secure: bool,
    b_nsec_priviledged: bool,
    b_sec_priviledged: bool,
    addr: u32,
    old: u32,
)
    requires
        a.region_index() != b.region_index(),
    ensures
        ({
            let ta = trustzone_ops(a, a_non_secure, a_nsec_priviledged, a_sec_priviledged);
            let tb = trustzone_ops(b, b_non_secure, b_nsec_priviledged, b_sec_priviledged);
            reg_after(ta + tb, addr, old) == reg_after(tb + ta, addr, old)
        }),
{
    let ta = trustzone_ops(a, a_non_secure, a_nsec_priviledged, a_sec_priviledged);
    let tb = trustzone_ops(b, b_non_secure, b_nsec_priviledged, b_sec_priviledged);
    lemma_reg_after_append(ta, tb, addr, old);
    lemma_reg_after_append(tb, ta, addr, old);
    assert(a.region_index() < 222 && b.region_index() < 222);
    let ba = attr_bit(a);
    let bb = attr_bit(b);
    let same = a.region_index() / 32 == b.region_index() / 32;
    assert(same ==> ba != bb);
    reveal_with_fuel(reg_after, 4);
    assert(ta.drop_last() =~= seq![ta[0], ta[1]]);
    assert(ta.drop_last().drop_last() =~= seq![ta[0]]);
    assert(ta.drop_last().drop_last().drop_last() =~= Seq::<RegOp>::empty());
    assert(tb.drop_last() =~= seq![tb[0], tb[1]]);
    assert(tb.drop_last().drop_last() =~= seq![tb[0]]);
    assert(tb.drop_last().drop_last().drop_last() =~= Seq::<RegOp>::empty());
    // each register of the three arrays is reached by at most one operation of
    // each region, the k-th one
    if addr == attr_register(PPC_NS_ATTRS, a) || addr == attr_register(PPC_NS_ATTRS, b) {
        if same {
            lemma_bit_modify_commute(addr, ba, a_non_secure, bb, b_non_secure, old);
        }
    } else if addr == attr_register(PPC_S_P_ATTRS, a) || addr == attr_register(PPC_S_P_ATTRS, b) {
        if same {
            lemma_bit_modify_commute(addr, ba, !a_sec_priviledged, bb, !b_sec_priviledged, old);
        }
    } else if addr == attr_register(PPC_NS_P_ATTRS, a) || addr == attr_register(PPC_NS_P_ATTRS, b) {
        if same {
            lemma_bit_modify_commute(addr, ba, !a_nsec_priviledged, bb, !b_nsec_priviledged, old);
        }
    }
}

/// The regions in the order of the reference manual's table of peripheral
/// regions: the region numbered `i`, or `None` past the last region.
pub open spec fn region_numbered(i: nat) -> Option<PpcRegion> {
    if i >= 222 {
        None
    } else if i == 0 {
        Some(PpcRegion::ProtPeri0Main)
    } else if i == 1 {
        Some(PpcRegion::ProtPeri0Gr0Group)
    } else if i == 2 {
        Some(PpcRegion::ProtPeri0Gr1Group)
    } else if i == 3 {
        Some(PpcRegion::ProtPeri0Gr2Group)
    } else if i == 4 {
        Some(PpcRegion::ProtPeri0Gr3Group)
    } else if i == 5 {
        Some(PpcRegion::ProtPeri0Gr4Group)
    } else if i == 6 {
        Some(PpcRegion::ProtPeri0Gr5Group)
    } else if i == 7 {
        Some(PpcRegion::ProtPeri0Gr0Boot)
    } else if i == 8 {
        Some(PpcRegion::ProtPeri0Gr1Boot)
    } else if i == 9 {
        Some(PpcRegion::ProtPeri0Gr2Boot)
    } else if i == 10 {
        Some(PpcRegion::ProtPeri0Gr3Boot)
    } else if i == 11 {
        Some(PpcRegion::ProtPeri0Gr4Boot)
    } else if i == 12 {
        Some(PpcRegion::ProtPeri0Gr5Boot)
    } else if i == 13 {
        Some(PpcRegion::ProtPeri0Tr)
    } else if i == 14 {
        Some(PpcRegion::ProtPpc0PpcPpcSecure)
    } else if i == 15 {
        Some(PpcRegion::ProtPpc0PpcPpcNonsecure)
    } else if i == 16 {
        Some(PpcRegion::ProtPeriPclk0Main)
    } else if i == 17 {
        Some(PpcRegion::ProtCpuss)
    } else if i == 18 {
        Some(PpcRegion::ProtRamc0Cm33)
    } else if i == 19 {
        Some(PpcRegion::ProtRamc0Boot)
    } else if i == 20 {
        Some(PpcRegion::ProtRamc0RamPwr)
    } else if i == 21 {
        Some(PpcRegion::ProtRamc0Mpc0PpcMpcMain)
    } else if i == 22 {
        Some(PpcRegion::ProtRamc0Mpc0PpcMpcPc)
    } else if i == 23 {
        Some(PpcRegion::ProtRamc0Mpc0PpcMpcRot)
    } else if i == 24 {
        Some(PpcRegion::ProtPromcCm33)
    } else if i == 25 {
        Some(PpcRegion::ProtPromcMpc0PpcMpcMain)
    } else if i == 26 {
        Some(PpcRegion::ProtPromcMpc0PpcMpcPc)
    } else if i == 27 {
        Some(PpcRegion::ProtPromcMpc0PpcMpcRot)
    } else if i == 28 {
        Some(PpcRegion::ProtFlashcBoot)
    } else if i == 29 {
        Some(PpcRegion::ProtFlashcBoot1)
    } else if i == 30 {
        Some(PpcRegion::ProtFlashcMain)
    } else if i == 31 {
        Some(PpcRegion::ProtFlashcDft)
    } else if i == 32 {
        Some(PpcRegion::ProtFlashcEcc)
    } else if i == 33 {
        Some(PpcRegion::ProtFlashcMpc0PpcMpcMain)
    } else if i == 34 {
        Some(PpcRegion::ProtFlashcMpc0PpcMpcPc)
    } else if i == 35 {
        Some(PpcRegion::ProtFlashcMpc0PpcMpcRot)
    } else if i == 36 {
        Some(PpcRegion::ProtFlashcFmCtlFmDft)
    } else if i == 37 {
        Some(PpcRegion::ProtFlashcFmCtlFmBoot)
    } else if i == 38 {
        Some(PpcRegion::ProtFlashcFmCtlFmMain)
    } else if i == 39 {
        Some(PpcRegion::ProtMxcm33Cm33)
    } else if i == 40 {
        Some(PpcRegion::ProtMxcm33Cm33S)
    } else if i == 41 {
        Some(PpcRegion::ProtMxcm33Cm33Ns)
    } else if i == 42 {
        Some(PpcRegion::ProtMxcm33BootPc0)
    } else if i == 43 {
        Some(PpcRegion::ProtMxcm33BootPc1)
    } else if i == 44 {
        Some(PpcRegion::ProtMxcm33BootPc2)
    } else if i == 45 {
        Some(PpcRegion::ProtMxcm33BootPc3)
    } else if i == 46 {
        Some(PpcRegion::ProtMxcm33Boot)
    } else if i == 47 {
        Some(PpcRegion::ProtMxcm33Cm33Int)
    } else if i == 48 {
        Some(PpcRegion::ProtDw0Dw)
    } else if i == 49 {
        Some(PpcRegion::ProtDw1Dw)
    } else if i == 50 {
        Some(PpcRegion::ProtDw0DwCrc)
    } else if i == 51 {
        Some(PpcRegion::ProtDw1DwCrc)
    } else if i == 52 {
        Some(PpcRegion::ProtDw0ChStruct0Ch)
    } else if i == 53 {
        Some(PpcRegion::ProtDw0ChStruct1Ch)
    } else if i == 54 {
        Some(PpcRegion::ProtDw0ChStruct2Ch)
    } else if i == 55 {
        Some(PpcRegion::ProtDw0ChStruct3Ch)
    } else if i == 56 {
        Some(PpcRegion::ProtDw0ChStruct4Ch)
    } else if i == 57 {
        Some(PpcRegion::ProtDw0ChStruct5Ch)
    } else if i == 58 {
        Some(PpcRegion::ProtDw0ChStruct6Ch)
    } else if i == 59 {
        Some(PpcRegion::ProtDw0ChStruct7Ch)
    } else if i == 60 {
        Some(PpcRegion::ProtDw0ChStruct8Ch)
    } else if i == 61 {
        Some(PpcRegion::ProtDw0ChStruct9Ch)
    } else if i == 62 {
        Some(PpcRegion::ProtDw0ChStruct10Ch)
    } else if i == 63 {
        Some(PpcRegion::ProtDw0ChStruct11Ch)
    } else if i == 64 {
        Some(PpcRegion::ProtDw0ChStruct12Ch)
    } else if i == 65 {
        Some(PpcRegion::ProtDw0ChStruct13Ch)
    } else if i == 66 {
        Some(PpcRegion::ProtDw0ChStruct14Ch)
    } else if i == 67 {
        Some(PpcRegion::ProtDw0ChStruct15Ch)
    } else if i == 68 {
        Some(PpcRegion::ProtDw1ChStruct0Ch)
    } else if i == 69 {
        Some(PpcRegion::ProtDw1ChStruct1Ch)
    } else if i == 70 {
        Some(PpcRegion::ProtDw1ChStruct2Ch)
    } else if i == 71 {
        Some(PpcRegion::ProtDw1ChStruct3Ch)
    } else if i == 72 {
        Some(PpcRegion::ProtDw1ChStruct4Ch)
    } else if i == 73 {
        Some(PpcRegion::ProtDw1ChStruct5Ch)
    } else if i == 74 {
        Some(PpcRegion::ProtDw1ChStruct6Ch)
    } else if i == 75 {
        Some(PpcRegion::ProtDw1ChStruct7Ch)
    } else if i == 76 {
        Some(PpcRegion::ProtDw1ChStruct8Ch)
    } else if i == 77 {
        Some(PpcRegion::ProtDw1ChStruct9Ch)
    } else if i == 78 {
        Some(PpcRegion::ProtDw1ChStruct10Ch)
    } else if i == 79 {
        Some(PpcRegion::ProtDw1ChStruct11Ch)
    } else if i == 80 {
        Some(PpcRegion::ProtDw1ChStruct12Ch)
    } else if i == 81 {
        Some(PpcRegion::ProtDw1ChStruct13Ch)
    } else if i == 82 {
        Some(PpcRegion::ProtDw1ChStruct14Ch)
    } else if i == 83 {
        Some(PpcRegion::ProtDw1ChStruct15Ch)
    } else if i == 84 {
        Some(PpcRegion::ProtCpussAllPc)
    } else if i == 85 {
        Some(PpcRegion::ProtCpussDdft)
    } else if i == 86 {
        Some(PpcRegion::ProtCpussCm33S)
    } else if i == 87 {
        Some(PpcRegion::ProtCpussCm33Ns)
    } else if i == 88 {
        Some(PpcRegion::ProtCpussMscInt)
    } else if i == 89 {
        Some(PpcRegion::ProtCpussAp)
    } else if i == 90 {
        Some(PpcRegion::ProtCpussBoot)
    } else if i == 91 {
        Some(PpcRegion::ProtMs0Main)
    } else if i == 92 {
        Some(PpcRegion::ProtMs4Main)
    } else if i == 93 {
        Some(PpcRegion::ProtMs5Main)
    } else if i == 94 {
        Some(PpcRegion::ProtMs7Main)
    } else if i == 95 {
        Some(PpcRegion::ProtMs31Main)
    } else if i == 96 {
        Some(PpcRegion::ProtMsPc0Priv)
    } else if i == 97 {
        Some(PpcRegion::ProtMsPc31Priv)
    } else if i == 98 {
        Some(PpcRegion::ProtMsPc0PrivMir)
    } else if i == 99 {
        Some(PpcRegion::ProtMsPc31PrivMir)
    } else if i == 100 {
        Some(PpcRegion::ProtMscAcg)
    } else if i == 101 {
        Some(PpcRegion::ProtCpussSlCtlGroup)
    } else if i == 102 {
        Some(PpcRegion::ProtIpcStruct0Ipc)
    } else if i == 103 {
        Some(PpcRegion::ProtIpcStruct1Ipc)
    } else if i == 104 {
        Some(PpcRegion::ProtIpcStruct2Ipc)
    } else if i == 105 {
        Some(PpcRegion::ProtIpcStruct3Ipc)
    } else if i == 106 {
        Some(PpcRegion::ProtIpcIntrStruct0Intr)
    } else if i == 107 {
        Some(PpcRegion::ProtIpcIntrStruct1Intr)
    } else if i == 108 {
        Some(PpcRegion::ProtFaultStruct0Main)
    } else if i == 109 {
        Some(PpcRegion::ProtSrssGeneral)
    } else if i == 110 {
        Some(PpcRegion::ProtSrssGeneral2)
    } else if i == 111 {
        Some(PpcRegion::ProtSrssHibData)
    } else if i == 112 {
        Some(PpcRegion::ProtSrssMain)
    } else if i == 113 {
        Some(PpcRegion::ProtSrssSecure)
    } else if i == 114 {
        Some(PpcRegion::ProtRamTrimSrssSram)
    } else if i == 115 {
        Some(PpcRegion::ProtSrssDpll)
    } else if i == 116 {
        Some(PpcRegion::ProtSrssWdt)
    } else if i == 117 {
        Some(PpcRegion::ProtMain)
    } else if i == 118 {
        Some(PpcRegion::ProtPwrmodePwrmode)
    } else if i == 119 {
        Some(PpcRegion::ProtBackupBackup)
    } else if i == 120 {
        Some(PpcRegion::ProtBackupBBreg0)
    } else if i == 121 {
        Some(PpcRegion::ProtBackupBBreg1)
    } else if i == 122 {
        Some(PpcRegion::ProtBackupBBreg2)
    } else if i == 123 {
        Some(PpcRegion::ProtBackupBBreg3)
    } else if i == 124 {
        Some(PpcRegion::ProtBackupBackupSecure)
    } else if i == 125 {
        Some(PpcRegion::ProtCryptoliteMain)
    } else if i == 126 {
        Some(PpcRegion::ProtCryptoliteTrng)
    } else if i == 127 {
        Some(PpcRegion::ProtMxcordic10)
    } else if i == 128 {
        Some(PpcRegion::ProtDebug600Debug600)
    } else if i == 129 {
        Some(PpcRegion::ProtHsiomPrt0Prt)
    } else if i == 130 {
        Some(PpcRegion::ProtHsiomPrt1Prt)
    } else if i == 131 {
        Some(PpcRegion::ProtHsiomPrt2Prt)
    } else if i == 132 {
        Some(PpcRegion::ProtHsiomPrt3Prt)
    } else if i == 133 {
        Some(PpcRegion::ProtHsiomPrt4Prt)
    } else if i == 134 {
        Some(PpcRegion::ProtHsiomPrt5Prt)
    } else if i == 135 {
        Some(PpcRegion::ProtHsiomPrt6Prt)
    } else if i == 136 {
        Some(PpcRegion::ProtHsiomPrt7Prt)
    } else if i == 137 {
        Some(PpcRegion::ProtHsiomPrt8Prt)
    } else if i == 138 {
        Some(PpcRegion::ProtHsiomPrt9Prt)
    } else if i == 139 {
        Some(PpcRegion::ProtHsiomSecurePrt0SecurePrt)
    } else if i == 140 {
        Some(PpcRegion::ProtHsiomSecurePrt1SecurePrt)
    } else if i == 141 {
        Some(PpcRegion::ProtHsiomSecurePrt2SecurePrt)
    } else if i == 142 {
        Some(PpcRegion::ProtHsiomSecurePrt3SecurePrt)
    } else if i == 143 {
        Some(PpcRegion::ProtHsiomSecurePrt4SecurePrt)
    } else if i == 144 {
        Some(PpcRegion::ProtHsiomSecurePrt5SecurePrt)
    } else if i == 145 {
        Some(PpcRegion::ProtHsiomSecurePrt6SecurePrt)
    } else if i == 146 {
        Some(PpcRegion::ProtHsiomSecurePrt7SecurePrt)
    } else if i == 147 {
        Some(PpcRegion::ProtHsiomSecurePrt8SecurePrt)
    } else if i == 148 {
        Some(PpcRegion::ProtHsiomSecurePrt9SecurePrt)
    } else if i == 149 {
        Some(PpcRegion::ProtHsiomAmux)
    } else if i == 150 {
        Some(PpcRegion::ProtHsiomMon)
    } else if i == 151 {
        Some(PpcRegion::ProtGpioPrt0Prt)
    } else if i == 152 {
        Some(PpcRegion::ProtGpioPrt1Prt)
    } else if i == 153 {
        Some(PpcRegion::ProtGpioPrt2Prt)
    } else if i == 154 {
        Some(PpcRegion::ProtGpioPrt3Prt)
    } else if i == 155 {
        Some(PpcRegion::ProtGpioPrt4Prt)
    } else if i == 156 {
        Some(PpcRegion::ProtGpioPrt5Prt)
    } else if i == 157 {
        Some(PpcRegion::ProtGpioPrt6Prt)
    } else if i == 158 {
        Some(PpcRegion::ProtGpioPrt7Prt)
    } else if i == 159 {
        Some(PpcRegion::ProtGpioPrt8Prt)
    } else if i == 160 {
        Some(PpcRegion::ProtGpioPrt9Prt)
    } else if i == 161 {
        Some(PpcRegion::ProtGpioPrt0Cfg)
    } else if i == 162 {
        Some(PpcRegion::ProtGpioPrt1Cfg)
    } else if i == 163 {
        Some(PpcRegion::ProtGpioPrt2Cfg)
    } else if i == 164 {
        Some(PpcRegion::ProtGpioPrt3Cfg)
    } else if i == 165 {
        Some(PpcRegion::ProtGpioPrt4Cfg)
    } else if i == 166 {
        Some(PpcRegion::ProtGpioPrt5Cfg)
    } else if i == 167 {
        Some(PpcRegion::ProtGpioPrt6Cfg)
    } else if i == 168 {
        Some(PpcRegion::ProtGpioPrt7Cfg)
    } else if i == 169 {
        Some(PpcRegion::ProtGpioPrt8Cfg)
    } else if i == 170 {
        Some(PpcRegion::ProtGpioPrt9Cfg)
    } else if i == 171 {
        Some(PpcRegion::ProtGpioSecGpio)
    } else if i == 172 {
        Some(PpcRegion::ProtGpioGpio)
    } else if i == 173 {
        Some(PpcRegion::ProtGpioTest)
    } else if i == 174 {
        Some(PpcRegion::ProtSmartioPrt0Prt)
    } else if i == 175 {
        Some(PpcRegion::ProtSmartioPrt1Prt)
    } else if i == 176 {
        Some(PpcRegion::ProtSmartioPrt2Prt)
    } else if i == 177 {
        Some(PpcRegion::ProtSmartioPrt3Prt)
    } else if i == 178 {
        Some(PpcRegion::ProtSmartioPrt5Prt)
    } else if i == 179 {
        Some(PpcRegion::ProtSmartioPrt6Prt)
    } else if i == 180 {
        Some(PpcRegion::ProtSmartioPrt9Prt)
    } else if i == 181 {
        Some(PpcRegion::ProtLpcomp)
    } else if i == 182 {
        Some(PpcRegion::ProtDft)
    } else if i == 183 {
        Some(PpcRegion::ProtEfuseCtl1)
    } else if i == 184 {
        Some(PpcRegion::ProtEfuseCtl2)
    } else if i == 185 {
        Some(PpcRegion::ProtEfuseCtl3)
    } else if i == 186 {
        Some(PpcRegion::ProtEfuseDataBoot1)
    } else if i == 187 {
        Some(PpcRegion::ProtCanfd0Ch0Ch)
    } else if i == 188 {
        Some(PpcRegion::ProtCanfd0Ch1Ch)
    } else if i == 189 {
        Some(PpcRegion::ProtCanfd0Main)
    } else if i == 190 {
        Some(PpcRegion::ProtCanfd0Buf)
    } else if i == 191 {
        Some(PpcRegion::ProtScb0)
    } else if i == 192 {
        Some(PpcRegion::ProtScb1)
    } else if i == 193 {
        Some(PpcRegion::ProtScb2)
    } else if i == 194 {
        Some(PpcRegion::ProtScb3)
    } else if i == 195 {
        Some(PpcRegion::ProtScb4)
    } else if i == 196 {
        Some(PpcRegion::ProtScb5)
    } else if i == 197 {
        Some(PpcRegion::ProtTcpwm0Grp0Cnt0Cnt)
    } else if i == 198 {
        Some(PpcRegion::ProtTcpwm0Grp0Cnt1Cnt)
    } else if i == 199 {
        Some(PpcRegion::ProtTcpwm0Grp0Cnt2Cnt)
    } else if i == 200 {
        Some(PpcRegion::ProtTcpwm0Grp0Cnt3Cnt)
    } else if i == 201 {
        Some(PpcRegion::ProtTcpwm0Grp1Cnt0Cnt)
    } else if i == 202 {
        Some(PpcRegion::ProtTcpwm0Grp1Cnt1Cnt)
    } else if i == 203 {
        Some(PpcRegion::ProtTcpwm0Grp1Cnt2Cnt)
    } else if i == 204 {
        Some(PpcRegion::ProtTcpwm0Grp1Cnt3Cnt)
    } else if i == 205 {
        Some(PpcRegion::ProtTcpwm0Grp1Cnt4Cnt)
    } else if i == 206 {
        Some(PpcRegion::ProtTcpwm0Grp1Cnt5Cnt)
    } else if i == 207 {
        Some(PpcRegion::ProtTcpwm0Grp1Cnt6Cnt)
    } else if i == 208 {
        Some(PpcRegion::ProtTcpwm0Grp1Cnt7Cnt)
    } else if i == 209 {
        Some(PpcRegion::ProtTcpwm0Grp2Cnt0Cnt)
    } else if i == 210 {
        Some(PpcRegion::ProtTcpwm0Grp2Cnt1Cnt)
    } else if i == 211 {
        Some(PpcRegion::ProtTcpwm0Grp2Cnt2Cnt)
    } else if i == 212 {
        Some(PpcRegion::ProtTcpwm0Grp2Cnt3Cnt)
    } else if i == 213 {
        Some(PpcRegion::ProtTcpwm0Grp2Cnt4Cnt)
    } else if i == 214 {
        Some(PpcRegion::ProtTcpwm0Grp2Cnt5Cnt)
    } else if i == 215 {
        Some(PpcRegion::ProtTcpwm0Grp2Cnt6Cnt)
    } else if i == 216 {
        Some(PpcRegion::ProtTcpwm0Grp2Cnt7Cnt)
    } else if i == 217 {
        Some(PpcRegion::ProtTcpwm0TrAllGfTrAllGf)
    } else if i == 218 {
        Some(PpcRegion::ProtTcpwm0TrAllSyncBypassTrAllSynBypass)
    } else if i == 219 {
        Some(PpcRegion::ProtTcpwm0Boot)
    } else if i == 220 {
        Some(PpcRegion::ProtTcpwm0MotifGrp1Motif0Motif)
    } else if i == 221 {
        Some(PpcRegion::ProtMcpass)
    } else {
        None
    }
}

/// Each region's number is its place in the reference manual's table of
/// peripheral regions, so that distinct regions have distinct numbers and every
/// number below `PPC_REGION_COUNT` names exactly one region.
pub proof fn lemma_region_numbers(r: PpcRegion)
    ensures
        region_numbered(r.region_index()) == Some(r),
        r.region_index() < PPC_REGION_COUNT,
{
    match r {
        PpcRegion::ProtPeri0Main => {},
        PpcRegion::ProtPeri0Gr0Group => {},
        PpcRegion::ProtPeri0Gr1Group => {},
        PpcRegion::ProtPeri0Gr2Group => {},
        PpcRegion::ProtPeri0Gr3Group => {},
        PpcRegion::ProtPeri0Gr4Group => {},
        PpcRegion::ProtPeri0Gr5Group => {},
        PpcRegion::ProtPeri0Gr0Boot => {},
        PpcRegion::ProtPeri0Gr1Boot => {},
        PpcRegion::ProtPeri0Gr2Boot => {},
        PpcRegion::ProtPeri0Gr3Boot => {},
        PpcRegion::ProtPeri0Gr4Boot => {},
        PpcRegion::ProtPeri0Gr5Boot => {},
        PpcRegion::ProtPeri0Tr => {},
        PpcRegion::ProtPpc0PpcPpcSecure => {},
        PpcRegion::ProtPpc0PpcPpcNonsecure => {},
        PpcRegion::ProtPeriPclk0Main => {},
        PpcRegion::ProtCpuss => {},
        PpcRegion::ProtRamc0Cm33 => {},
        PpcRegion::ProtRamc0Boot => {},
        PpcRegion::ProtRamc0RamPwr => {},
        PpcRegion::ProtRamc0Mpc0PpcMpcMain => {},
        PpcRegion::ProtRamc0Mpc0PpcMpcPc => {},
        PpcRegion::ProtRamc0Mpc0PpcMpcRot => {},
        PpcRegion::ProtPromcCm33 => {},
        PpcRegion::ProtPromcMpc0PpcMpcMain => {},
        PpcRegion::ProtPromcMpc0PpcMpcPc => {},
        PpcRegion::ProtPromcMpc0PpcMpcRot => {},
        PpcRegion::ProtFlashcBoot => {},
        PpcRegion::ProtFlashcBoot1 => {},
        PpcRegion::ProtFlashcMain => {},
        PpcRegion::ProtFlashcDft => {},
        PpcRegion::ProtFlashcEcc => {},
        PpcRegion::ProtFlashcMpc0PpcMpcMain => {},
        PpcRegion::ProtFlashcMpc0PpcMpcPc => {},
        PpcRegion::ProtFlashcMpc0PpcMpcRot => {},
        PpcRegion::ProtFlashcFmCtlFmDft => {},
        PpcRegion::ProtFlashcFmCtlFmBoot => {},
        PpcRegion::ProtFlashcFmCtlFmMain => {},
        PpcRegion::ProtMxcm33Cm33 => {},
        PpcRegion::ProtMxcm33Cm33S => {},
        PpcRegion::ProtMxcm33Cm33Ns => {},
        PpcRegion::ProtMxcm33BootPc0 => {},
        PpcRegion::ProtMxcm33BootPc1 => {},
        PpcRegion::ProtMxcm33BootPc2 => {},
        PpcRegion::ProtMxcm33BootPc3 => {},
        PpcRegion::ProtMxcm33Boot => {},
        PpcRegion::ProtMxcm33Cm33Int => {},
        PpcRegion::ProtDw0Dw => {},
        PpcRegion::ProtDw1Dw => {},
        PpcRegion::ProtDw0DwCrc => {},
        PpcRegion::ProtDw1DwCrc => {},
        PpcRegion::ProtDw0ChStruct0Ch => {},
        PpcRegion::ProtDw0ChStruct1Ch => {},
        PpcRegion::ProtDw0ChStruct2Ch => {},
        PpcRegion::ProtDw0ChStruct3Ch => {},
        PpcRegion::ProtDw0ChStruct4Ch => {},
        PpcRegion::ProtDw0ChStruct5Ch => {},
        PpcRegion::ProtDw0ChStruct6Ch => {},
        PpcRegion::ProtDw0ChStruct7Ch => {},
        PpcRegion::ProtDw0ChStruct8Ch => {},
        PpcRegion::ProtDw0ChStruct9Ch => {},
        PpcRegion::ProtDw0ChStruct10Ch => {},
        PpcRegion::ProtDw0ChStruct11Ch => {},
        PpcRegion::ProtDw0ChStruct12Ch => {},
        PpcRegion::ProtDw0ChStruct13Ch => {},
        PpcRegion::ProtDw0ChStruct14Ch => {},
        PpcRegion::ProtDw0ChStruct15Ch => {},
        PpcRegion::ProtDw1ChStruct0Ch => {},
        PpcRegion::ProtDw1ChStruct1Ch => {},
        PpcRegion::ProtDw1ChStruct2Ch => {},
        PpcRegion::ProtDw1ChStruct3Ch => {},
        PpcRegion::ProtDw1ChStruct4Ch => {},
        PpcRegion::ProtDw1ChStruct5Ch => {},
        PpcRegion::ProtDw1ChStruct6Ch => {},
        PpcRegion::ProtDw1ChStruct7Ch => {},
        PpcRegion::ProtDw1ChStruct8Ch => {},
        PpcRegion::ProtDw1ChStruct9Ch => {},
        PpcRegion::ProtDw1ChStruct10Ch => {},
        PpcRegion::ProtDw1ChStruct11Ch => {},
        PpcRegion::ProtDw1ChStruct12Ch => {},
        PpcRegion::ProtDw1ChStruct13Ch => {},
        PpcRegion::ProtDw1ChStruct14Ch => {},
        PpcRegion::ProtDw1ChStruct15Ch => {},
        PpcRegion::ProtCpussAllPc => {},
        PpcRegion::ProtCpussDdft => {},
        PpcRegion::ProtCpussCm33S => {},
        PpcRegion::ProtCpussCm33Ns => {},
        PpcRegion::ProtCpussMscInt => {},
        PpcRegion::ProtCpussAp => {},
        PpcRegion::ProtCpussBoot => {},
        PpcRegion::ProtMs0Main => {},
        PpcRegion::ProtMs4Main => {},
        PpcRegion::ProtMs5Main => {},
        PpcRegion::ProtMs7Main => {},
        PpcRegion::ProtMs31Main => {},
        PpcRegion::ProtMsPc0Priv => {},
        PpcRegion::ProtMsPc31Priv => {},
        PpcRegion::ProtMsPc0PrivMir => {},
        PpcRegion::ProtMsPc31PrivMir => {},
        PpcRegion::ProtMscAcg => {},
        PpcRegion::ProtCpussSlCtlGroup => {},
        PpcRegion::ProtIpcStruct0Ipc => {},
        PpcRegion::ProtIpcStruct1Ipc => {},
        PpcRegion::ProtIpcStruct2Ipc => {},
        PpcRegion::ProtIpcStruct3Ipc => {},
        PpcRegion::ProtIpcIntrStruct0Intr => {},
        PpcRegion::ProtIpcIntrStruct1Intr => {},
        PpcRegion::ProtFaultStruct0Main => {},
        PpcRegion::ProtSrssGeneral => {},
        PpcRegion::ProtSrssGeneral2 => {},
        PpcRegion::ProtSrssHibData => {},
        PpcRegion::ProtSrssMain => {},
        PpcRegion::ProtSrssSecure => {},
        PpcRegion::ProtRamTrimSrssSram => {},
        PpcRegion::ProtSrssDpll => {},
        PpcRegion::ProtSrssWdt => {},
        PpcRegion::ProtMain => {},
        PpcRegion::ProtPwrmodePwrmode => {},
        PpcRegion::ProtBackupBackup => {},
        PpcRegion::ProtBackupBBreg0 => {},
        PpcRegion::ProtBackupBBreg1 => {},
        PpcRegion::ProtBackupBBreg2 => {},
        PpcRegion::ProtBackupBBreg3 => {},
        PpcRegion::ProtBackupBackupSecure => {},
        PpcRegion::ProtCryptoliteMain => {},
        PpcRegion::ProtCryptoliteTrng => {},
        PpcRegion::ProtMxcordic10 => {},
        PpcRegion::ProtDebug600Debug600 => {},
        PpcRegion::ProtHsiomPrt0Prt => {},
        PpcRegion::ProtHsiomPrt1Prt => {},
        PpcRegion::ProtHsiomPrt2Prt => {},
        PpcRegion::ProtHsiomPrt3Prt => {},
        PpcRegion::ProtHsiomPrt4Prt => {},
        PpcRegion::ProtHsiomPrt5Prt => {},
        PpcRegion::ProtHsiomPrt6Prt => {},
        PpcRegion::ProtHsiomPrt7Prt => {},
        PpcRegion::ProtHsiomPrt8Prt => {},
        PpcRegion::ProtHsiomPrt9Prt => {},
        PpcRegion::ProtHsiomSecurePrt0SecurePrt => {},
        PpcRegion::ProtHsiomSecurePrt1SecurePrt => {},
        PpcRegion::ProtHsiomSecurePrt2SecurePrt => {},
        PpcRegion::ProtHsiomSecurePrt3SecurePrt => {},
        PpcRegion::ProtHsiomSecurePrt4SecurePrt => {},
        PpcRegion::ProtHsiomSecurePrt5SecurePrt => {},
        PpcRegion::ProtHsiomSecurePrt6SecurePrt => {},
        PpcRegion::ProtHsiomSecurePrt7SecurePrt => {},
        PpcRegion::ProtHsiomSecurePrt8SecurePrt => {},
        PpcRegion::ProtHsiomSecurePrt9SecurePrt => {},
        PpcRegion::ProtHsiomAmux => {},
        PpcRegion::ProtHsiomMon => {},
        PpcRegion::ProtGpioPrt0Prt => {},
        PpcRegion::ProtGpioPrt1Prt => {},
        PpcRegion::ProtGpioPrt2Prt => {},
        PpcRegion::ProtGpioPrt3Prt => {},
        PpcRegion::ProtGpioPrt4Prt => {},
        PpcRegion::ProtGpioPrt5Prt => {},
        PpcRegion::ProtGpioPrt6Prt => {},
        PpcRegion::ProtGpioPrt7Prt => {},
        PpcRegion::ProtGpioPrt8Prt => {},
        PpcRegion::ProtGpioPrt9Prt => {},
        PpcRegion::ProtGpioPrt0Cfg => {},
        PpcRegion::ProtGpioPrt1Cfg => {},
        PpcRegion::ProtGpioPrt2Cfg => {},
        PpcRegion::ProtGpioPrt3Cfg => {},
        PpcRegion::ProtGpioPrt4Cfg => {},
        PpcRegion::ProtGpioPrt5Cfg => {},
        PpcRegion::ProtGpioPrt6Cfg => {},
        PpcRegion::ProtGpioPrt7Cfg => {},
        PpcRegion::ProtGpioPrt8Cfg => {},
        PpcRegion::ProtGpioPrt9Cfg => {},
        PpcRegion::ProtGpioSecGpio => {},
        PpcRegion::ProtGpioGpio => {},
        PpcRegion::ProtGpioTest => {},
        PpcRegion::ProtSmartioPrt0Prt => {},
        PpcRegion::ProtSmartioPrt1Prt => {},
        PpcRegion::ProtSmartioPrt2Prt => {},
        PpcRegion::ProtSmartioPrt3Prt => {},
        PpcRegion::ProtSmartioPrt5Prt => {},
        PpcRegion::ProtSmartioPrt6Prt => {},
        PpcRegion::ProtSmartioPrt9Prt => {},
        PpcRegion::ProtLpcomp => {},
        PpcRegion::ProtDft => {},
        PpcRegion::ProtEfuseCtl1 => {},
        PpcRegion::ProtEfuseCtl2 => {},
        PpcRegion::ProtEfuseCtl3 => {},
        PpcRegion::ProtEfuseDataBoot1 => {},
        PpcRegion::ProtCanfd0Ch0Ch => {},
        PpcRegion::ProtCanfd0Ch1Ch => {},
        PpcRegion::ProtCanfd0Main => {},
        PpcRegion::ProtCanfd0Buf => {},
        PpcRegion::ProtScb0 => {},
        PpcRegion::ProtScb1 => {},
        PpcRegion::ProtScb2 => {},
        PpcRegion::ProtScb3 => {},
        PpcRegion::ProtScb4 => {},
        PpcRegion::ProtScb5 => {},
        PpcRegion::ProtTcpwm0Grp0Cnt0Cnt => {},
        PpcRegion::ProtTcpwm0Grp0Cnt1Cnt => {},
        PpcRegion::ProtTcpwm0Grp0Cnt2Cnt => {},
        PpcRegion::ProtTcpwm0Grp0Cnt3Cnt => {},
        PpcRegion::ProtTcpwm0Grp1Cnt0Cnt => {},
        PpcRegion::ProtTcpwm0Grp1Cnt1Cnt => {},
        PpcRegion::ProtTcpwm0Grp1Cnt2Cnt => {},
        PpcRegion::ProtTcpwm0Grp1Cnt3Cnt => {},
        PpcRegion::ProtTcpwm0Grp1Cnt4Cnt => {},
        PpcRegion::ProtTcpwm0Grp1Cnt5Cnt => {},
        PpcRegion::ProtTcpwm0Grp1Cnt6Cnt => {},
        PpcRegion::ProtTcpwm0Grp1Cnt7Cnt => {},
        PpcRegion::ProtTcpwm0Grp2Cnt0Cnt => {},
        PpcRegion::ProtTcpwm0Grp2Cnt1Cnt => {},
        PpcRegion::ProtTcpwm0Grp2Cnt2Cnt => {},
        PpcRegion::ProtTcpwm0Grp2Cnt3Cnt => {},
        PpcRegion::ProtTcpwm0Grp2Cnt4Cnt => {},
        PpcRegion::ProtTcpwm0Grp2Cnt5Cnt => {},
        PpcRegion::ProtTcpwm0Grp2Cnt6Cnt => {},
        PpcRegion::ProtTcpwm0Grp2Cnt7Cnt => {},
        PpcRegion::ProtTcpwm0TrAllGfTrAllGf => {},
        PpcRegion::ProtTcpwm0TrAllSyncBypassTrAllSynBypass => {},
        PpcRegion::ProtTcpwm0Boot => {},
        PpcRegion::ProtTcpwm0MotifGrp1Motif0Motif => {},
        PpcRegion::ProtMcpass => {},
    }
}

/// Distinct regions have distinct numbers.
pub proof fn lemma_region_numbers_distinct(a: PpcRegion, b: PpcRegion)
    ensures
        a.region_index() == b.region_index() ==> a == b,
{
    lemma_region_numbers(a);
    lemma_region_numbers(b);
}

/// Every number below `PPC_REGION_COUNT` is the number of a region.
pub proof fn lemma_region_numbered_inverse(i: nat)
    requires
        i < PPC_REGION_COUNT,
    ensures
        region_numbered(i) matches Some(r) && r.region_index() == i,
{
}

/// The attribute arrays hold one bit per region, in region order: region `i` is
/// bit `i` of the array counted from bit 0 of its first register (bit `i % 32` of
/// register `i / 32`). So two distinct regions never share an attribute bit.
pub proof fn lemma_attr_bit_position(base: u32, a: PpcRegion, b: PpcRegion)
    requires
        base == PPC_NS_ATTRS || base == PPC_S_P_ATTRS || base == PPC_NS_P_ATTRS,
    ensures
        (attr_register(base, a) - base) % 4 == 0,
        ((attr_register(base, a) - base) / 4) * 32 + attr_bit(a) == a.region_index(),
        attr_bit(a) < 32,
        a != b ==> (attr_register(base, a), attr_bit(a)) != (attr_register(base, b), attr_bit(b)),
{
    lemma_region_numbers_distinct(a, b);
    lemma_region_numbers(a);
    lemma_region_numbers(b);
}

/// The protection context mask array holds one byte per region, in region order:
/// region `i` is byte `i` of the array, counted from the least significant byte of
/// its first register (byte `i % 4` of register `i / 4`). So two distinct regions
/// never share a byte.
pub proof fn lemma_pc_mask_position(a: PpcRegion, b: PpcRegion)
    ensures
        (pc_mask_register(a) - PPC_PC_MASKS) % 4 == 0,
        pc_mask_shift(a) % 8 == 0,
        pc_mask_shift(a) < 32,
        (pc_mask_register(a) - PPC_PC_MASKS) + pc_mask_shift(a) / 8 == a.region_index(),
        a != b ==> (pc_mask_register(a), pc_mask_shift(a)) != (pc_mask_register(b), pc_mask_shift(
            b,
        )),
{
    lemma_region_numbers_distinct(a, b);
    lemma_region_numbers(a);
    lemma_region_numbers(b);
}

} // verus!
