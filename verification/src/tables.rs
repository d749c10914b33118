//! The static tables of the decoder: sample rates, bitrates, scale-factor
//! magnitudes, the synthesis window, the four-step quantizer lookup tables,
//! the 17-entry quantizer specification table and the cosine matrix.

use vstd::prelude::*;

verus! {

/// Sample rates in Hz by the 2-bit sampling-frequency code; code 3 is
/// invalid and maps to 0.
pub const SAMPLE_RATES: [u32; 4] = [44100, 48000, 32000, 0];

/// Bitrates in kbit/s by the 4-bit bitrate index minus one.
pub const BITRATES: [u32; 14] = [32, 48, 56, 64, 80, 96, 112, 128, 160, 192, 224, 256, 320, 384];

/// Scale-factor magnitudes (24-bit fixed point) by the 6-bit scale-factor
/// index; the last entry is 0.
pub const SCF_VALUE: [i32; 64] = [
    0x02000000, 0x01965FEA, 0x01428A30, 0x01000000, 0x00CB2FF5, 0x00A14518, 0x00800000, 0x006597FB,
    0x0050A28C, 0x00400000, 0x0032CBFD, 0x00285146, 0x00200000, 0x001965FF, 0x001428A3, 0x00100000,
    0x000CB2FF, 0x000A1451, 0x00080000, 0x00065980, 0x00050A29, 0x00040000, 0x00032CC0, 0x00028514,
    0x00020000, 0x00019660, 0x0001428A, 0x00010000, 0x0000CB30, 0x0000A145, 0x00008000, 0x00006598,
    0x000050A3, 0x00004000, 0x000032CC, 0x00002851, 0x00002000, 0x00001966, 0x00001429, 0x00001000,
    0x00000CB3, 0x00000A14, 0x00000800, 0x00000659, 0x0000050A, 0x00000400, 0x0000032D, 0x00000285,
    0x00000200, 0x00000196, 0x00000143, 0x00000100, 0x000000CB, 0x000000A1, 0x00000080, 0x00000066,
    0x00000051, 0x00000040, 0x00000033, 0x00000028, 0x00000020, 0x00000019, 0x00000014, 0,
];

/// The 512-tap synthesis window.
pub const D: [i32; 512] = [
     0x00000, 0x00000, 0x00000, 0x00000, 0x00000, 0x00000, 0x00000,-0x00001,
    -0x00001,-0x00001,-0x00001,-0x00002,-0x00002,-0x00003,-0x00003,-0x00004,
    -0x00004,-0x00005,-0x00006,-0x00006,-0x00007,-0x00008,-0x00009,-0x0000A,
    -0x0000C,-0x0000D,-0x0000F,-0x00010,-0x00012,-0x00014,-0x00017,-0x00019,
    -0x0001C,-0x0001E,-0x00022,-0x00025,-0x00028,-0x0002C,-0x00030,-0x00034,
    -0x00039,-0x0003E,-0x00043,-0x00048,-0x0004E,-0x00054,-0x0005A,-0x00060,
    -0x00067,-0x0006E,-0x00074,-0x0007C,-0x00083,-0x0008A,-0x00092,-0x00099,
    -0x000A0,-0x000A8,-0x000AF,-0x000B6,-0x000BD,-0x000C3,-0x000C9,-0x000CF,
     0x000D5, 0x000DA, 0x000DE, 0x000E1, 0x000E3, 0x000E4, 0x000E4, 0x000E3,
     0x000E0, 0x000DD, 0x000D7, 0x000D0, 0x000C8, 0x000BD, 0x000B1, 0x000A3,
     0x00092, 0x0007F, 0x0006A, 0x00053, 0x00039, 0x0001D,-0x00001,-0x00023,
    -0x00047,-0x0006E,-0x00098,-0x000C4,-0x000F3,-0x00125,-0x0015A,-0x00190,
    -0x001CA,-0x00206,-0x00244,-0x00284,-0x002C6,-0x0030A,-0x0034F,-0x00396,
    -0x003DE,-0x00427,-0x00470,-0x004B9,-0x00502,-0x0054B,-0x00593,-0x005D9,
    -0x0061E,-0x00661,-0x006A1,-0x006DE,-0x00718,-0x0074D,-0x0077E,-0x007A9,
    -0x007D0,-0x007EF,-0x00808,-0x0081A,-0x00824,-0x00826,-0x0081F,-0x0080E,
     0x007F5, 0x007D0, 0x007A0, 0x00765, 0x0071E, 0x006CB, 0x0066C, 0x005FF,
     0x00586, 0x00500, 0x0046B, 0x003CA, 0x0031A, 0x0025D, 0x00192, 0x000B9,
    -0x0002C,-0x0011F,-0x00220,-0x0032D,-0x00446,-0x0056B,-0x0069B,-0x007D5,
    -0x00919,-0x00A66,-0x00BBB,-0x00D16,-0x00E78,-0x00FDE,-0x01148,-0x012B3,
    -0x01420,-0x0158C,-0x016F6,-0x0185C,-0x019BC,-0x01B16,-0x01C66,-0x01DAC,
    -0x01EE5,-0x02010,-0x0212A,-0x02232,-0x02325,-0x02402,-0x024C7,-0x02570,
    -0x025FE,-0x0266D,-0x026BB,-0x026E6,-0x026ED,-0x026CE,-0x02686,-0x02615,
    -0x02577,-0x024AC,-0x023B2,-0x02287,-0x0212B,-0x01F9B,-0x01DD7,-0x01BDD,
     0x019AE, 0x01747, 0x014A8, 0x011D1, 0x00EC0, 0x00B77, 0x007F5, 0x0043A,
     0x00046,-0x003E5,-0x00849,-0x00CE3,-0x011B4,-0x016B9,-0x01BF1,-0x0215B,
    -0x026F6,-0x02CBE,-0x032B3,-0x038D3,-0x03F1A,-0x04586,-0x04C15,-0x052C4,
    -0x05990,-0x06075,-0x06771,-0x06E80,-0x0759F,-0x07CCA,-0x083FE,-0x08B37,
    -0x09270,-0x099A7,-0x0A0D7,-0x0A7FD,-0x0AF14,-0x0B618,-0x0BD05,-0x0C3D8,
    -0x0CA8C,-0x0D11D,-0x0D789,-0x0DDC9,-0x0E3DC,-0x0E9BD,-0x0EF68,-0x0F4DB,
    -0x0FA12,-0x0FF09,-0x103BD,-0x1082C,-0x10C53,-0x1102E,-0x113BD,-0x116FB,
    -0x119E8,-0x11C82,-0x11EC6,-0x120B3,-0x12248,-0x12385,-0x12467,-0x124EF,
     0x1251E, 0x124F0, 0x12468, 0x12386, 0x12249, 0x120B4, 0x11EC7, 0x11C83,
     0x119E9, 0x116FC, 0x113BE, 0x1102F, 0x10C54, 0x1082D, 0x103BE, 0x0FF0A,
     0x0FA13, 0x0F4DC, 0x0EF69, 0x0E9BE, 0x0E3DD, 0x0DDCA, 0x0D78A, 0x0D11E,
     0x0CA8D, 0x0C3D9, 0x0BD06, 0x0B619, 0x0AF15, 0x0A7FE, 0x0A0D8, 0x099A8,
     0x09271, 0x08B38, 0x083FF, 0x07CCB, 0x075A0, 0x06E81, 0x06772, 0x06076,
     0x05991, 0x052C5, 0x04C16, 0x04587, 0x03F1B, 0x038D4, 0x032B4, 0x02CBF,
     0x026F7, 0x0215C, 0x01BF2, 0x016BA, 0x011B5, 0x00CE4, 0x0084A, 0x003E6,
    -0x00045,-0x00439,-0x007F4,-0x00B76,-0x00EBF,-0x011D0,-0x014A7,-0x01746,
     0x019AE, 0x01BDE, 0x01DD8, 0x01F9C, 0x0212C, 0x02288, 0x023B3, 0x024AD,
     0x02578, 0x02616, 0x02687, 0x026CF, 0x026EE, 0x026E7, 0x026BC, 0x0266E,
     0x025FF, 0x02571, 0x024C8, 0x02403, 0x02326, 0x02233, 0x0212B, 0x02011,
     0x01EE6, 0x01DAD, 0x01C67, 0x01B17, 0x019BD, 0x0185D, 0x016F7, 0x0158D,
     0x01421, 0x012B4, 0x01149, 0x00FDF, 0x00E79, 0x00D17, 0x00BBC, 0x00A67,
     0x0091A, 0x007D6, 0x0069C, 0x0056C, 0x00447, 0x0032E, 0x00221, 0x00120,
     0x0002D,-0x000B8,-0x00191,-0x0025C,-0x00319,-0x003C9,-0x0046A,-0x004FF,
    -0x00585,-0x005FE,-0x0066B,-0x006CA,-0x0071D,-0x00764,-0x0079F,-0x007CF,
     0x007F5, 0x0080F, 0x00820, 0x00827, 0x00825, 0x0081B, 0x00809, 0x007F0,
     0x007D1, 0x007AA, 0x0077F, 0x0074E, 0x00719, 0x006DF, 0x006A2, 0x00662,
     0x0061F, 0x005DA, 0x00594, 0x0054C, 0x00503, 0x004BA, 0x00471, 0x00428,
     0x003DF, 0x00397, 0x00350, 0x0030B, 0x002C7, 0x00285, 0x00245, 0x00207,
     0x001CB, 0x00191, 0x0015B, 0x00126, 0x000F4, 0x000C5, 0x00099, 0x0006F,
     0x00048, 0x00024, 0x00002,-0x0001C,-0x00038,-0x00052,-0x00069,-0x0007E,
    -0x00091,-0x000A2,-0x000B0,-0x000BC,-0x000C7,-0x000CF,-0x000D6,-0x000DC,
    -0x000DF,-0x000E2,-0x000E3,-0x000E3,-0x000E2,-0x000E0,-0x000DD,-0x000D9,
     0x000D5, 0x000D0, 0x000CA, 0x000C4, 0x000BE, 0x000B7, 0x000B0, 0x000A9,
     0x000A1, 0x0009A, 0x00093, 0x0008B, 0x00084, 0x0007D, 0x00075, 0x0006F,
     0x00068, 0x00061, 0x0005B, 0x00055, 0x0004F, 0x00049, 0x00044, 0x0003F,
     0x0003A, 0x00035, 0x00031, 0x0002D, 0x00029, 0x00026, 0x00023, 0x0001F,
     0x0001D, 0x0001A, 0x00018, 0x00015, 0x00013, 0x00011, 0x00010, 0x0000E,
     0x0000D, 0x0000B, 0x0000A, 0x00009, 0x00008, 0x00007, 0x00007, 0x00006,
     0x00005, 0x00005, 0x00004, 0x00004, 0x00003, 0x00003, 0x00002, 0x00002,
     0x00002, 0x00002, 0x00001, 0x00001, 0x00001, 0x00001, 0x00001, 0x00001,
];


/// The 64x32 cosine matrix of the synthesis filter.  Entry `[i][j]` is
/// `256 * cos((16 + i) * (2 * j + 1) * c)` truncated toward zero, where `c`
/// is pi / 64 in double precision, as the matrixing step of the standard
/// prescribes; the values are precomputed so that the decode path stays
/// purely in 32-bit integer arithmetic.  The matrix is split into four
/// blocks of 16 rows each.
pub const N_BLOCK_0: [[i32; 32]; 16] = [
    [181, -181, -181, 181, 181, -181, -181, 181, 181, -181, -181, 181, 181, -181, -181, 181, 181, -181, -181, 181, 181, -181, -181, 181, 181, -181, -181, 181, 181, -181, -181, 181],
    [171, -205, -131, 231, 86, -248, -37, 255, -12, -253, 62, 241, -109, -219, 152, 189, -189, -152, 219, 109, -241, -62, 253, 12, -255, 37, 248, -86, -231, 131, 205, -171],
    [162, -225, -74, 254, -25, -244, 120, 197, -197, -120, 244, 25, -254, 74, 225, -162, -162, 225, 74, -254, 25, 244, -120, -197, 197, 120, -244, -25, 254, -74, -225, 162],
    [152, -241, -12, 248, -131, -171, 231, 37, -253, 109, 189, -219, -62, 255, -86, -205, 205, 86, -255, 62, 219, -189, -109, 253, -37, -231, 171, 131, -248, 12, 241, -152],
    [142, -251, 49, 212, -212, -49, 251, -142, -142, 251, -49, -212, 212, 49, -251, 142, 142, -251, 49, 212, -212, -49, 251, -142, -142, 251, -49, -212, 212, 49, -251, 142],
    [131, -255, 109, 152, -253, 86, 171, -248, 62, 189, -241, 37, 205, -231, 12, 219, -219, -12, 231, -205, -37, 241, -189, -62, 248, -171, -86, 253, -152, -109, 255, -131],
    [120, -254, 162, 74, -244, 197, 25, -225, 225, -25, -197, 244, -74, -162, 254, -120, -120, 254, -162, -74, 244, -197, -25, 225, -225, 25, 197, -244, 74, 162, -254, 120],
    [109, -248, 205, -12, -189, 253, -131, -86, 241, -219, 37, 171, -255, 152, 62, -231, 231, -62, -152, 255, -171, -37, 219, -241, 86, 131, -253, 189, 12, -205, 248, -109],
    [97, -236, 236, -97, -97, 236, -236, 97, 97, -236, 236, -97, -97, 236, -236, 97, 97, -236, 236, -97, -97, 236, -236, 97, 97, -236, 236, -97, -97, 236, -236, 97],
    [86, -219, 253, -171, 12, 152, -248, 231, -109, -62, 205, -255, 189, -37, -131, 241, -241, 131, 37, -189, 255, -205, 62, 109, -231, 248, -152, -12, 171, -253, 219, -86],
    [74, -197, 254, -225, 120, 25, -162, 244, -244, 162, -25, -120, 225, -254, 197, -74, -74, 197, -254, 225, -120, -25, 162, -244, 244, -162, 25, 120, -225, 254, -197, 74],
    [62, -171, 241, -253, 205, -109, -12, 131, -219, 255, -231, 152, -37, -86, 189, -248, 248, -189, 86, 37, -152, 231, -255, 219, -131, 12, 109, -205, 253, -241, 171, -62],
    [49, -142, 212, -251, 251, -212, 142, -49, -49, 142, -212, 251, -251, 212, -142, 49, 49, -142, 212, -251, 251, -212, 142, -49, -49, 142, -212, 251, -251, 212, -142, 49],
    [37, -109, 171, -219, 248, -255, 241, -205, 152, -86, 12, 62, -131, 189, -231, 253, -253, 231, -189, 131, -62, -12, 86, -152, 205, -241, 255, -248, 219, -171, 109, -37],
    [25, -74, 120, -162, 197, -225, 244, -254, 254, -244, 225, -197, 162, -120, 74, -25, -25, 74, -120, 162, -197, 225, -244, 254, -254, 244, -225, 197, -162, 120, -74, 25],
    [12, -37, 62, -86, 109, -131, 152, -171, 189, -205, 219, -231, 241, -248, 253, -255, 255, -253, 248, -241, 231, -219, 205, -189, 171, -152, 131, -109, 86, -62, 37, -12],
];

pub const N_BLOCK_1: [[i32; 32]; 16] = [
    [0, 0, 0, 0, 0, 0, 0, 0, 0, 0, 0, 0, 0, 0, 0, 0, 0, 0, 0, 0, 0, 0, 0, 0, 0, 0, 0, 0, 0, 0, 0, 0],
    [-12, 37, -62, 86, -109, 131, -152, 171, -189, 205, -219, 231, -241, 248, -253, 255, -255, 253, -248, 241, -231, 219, -205, 189, -171, 152, -131, 109, -86, 62, -37, 12],
    [-25, 74, -120, 162, -197, 225, -244, 254, -254, 244, -225, 197, -162, 120, -74, 25, 25, -74, 120, -162, 197, -225, 244, -254, 254, -244, 225, -197, 162, -120, 74, -25],
    [-37, 109, -171, 219, -248, 255, -241, 205, -152, 86, -12, -62, 131, -189, 231, -253, 253, -231, 189, -131, 62, 12, -86, 152, -205, 241, -255, 248, -219, 171, -109, 37],
    [-49, 142, -212, 251, -251, 212, -142, 49, 49, -142, 212, -251, 251, -212, 142, -49, -49, 142, -212, 251, -251, 212, -142, 49, 49, -142, 212, -251, 251, -212, 142, -49],
    [-62, 171, -241, 253, -205, 109, 12, -131, 219, -255, 231, -152, 37, 86, -189, 248, -248, 189, -86, -37, 152, -231, 255, -219, 131, -12, -109, 205, -253, 241, -171, 62],
    [-74, 197, -254, 225, -120, -25, 162, -244, 244, -162, 25, 120, -225, 254, -197, 74, 74, -197, 254, -225, 120, 25, -162, 244, -244, 162, -25, -120, 225, -254, 197, -74],
    [-86, 219, -253, 171, -12, -152, 248, -231, 109, 62, -205, 255, -189, 37, 131, -241, 241, -131, -37, 189, -255, 205, -62, -109, 231, -248, 152, 12, -171, 253, -219, 86],
    [-97, 236, -236, 97, 97, -236, 236, -97, -97, 236, -236, 97, 97, -236, 236, -97, -97, 236, -236, 97, 97, -236, 236, -97, -97, 236, -236, 97, 97, -236, 236, -97],
    [-109, 248, -205, 12, 189, -253, 131, 86, -241, 219, -37, -171, 255, -152, -62, 231, -231, 62, 152, -255, 171, 37, -219, 241, -86, -131, 253, -189, -12, 205, -248, 109],
    [-120, 254, -162, -74, 244, -197, -25, 225, -225, 25, 197, -244, 74, 162, -254, 120, 120, -254, 162, 74, -244, 197, 25, -225, 225, -25, -197, 244, -74, -162, 254, -120],
    [-131, 255, -109, -152, 253, -86, -171, 248, -62, -189, 241, -37, -205, 231, -12, -219, 219, 12, -231, 205, 37, -241, 189, 62, -248, 171, 86, -253, 152, 109, -255, 131],
    [-142, 251, -49, -212, 212, 49, -251, 142, 142, -251, 49, 212, -212, -49, 251, -142, -142, 251, -49, -212, 212, 49, -251, 142, 142, -251, 49, 212, -212, -49, 251, -142],
    [-152, 241, 12, -248, 131, 171, -231, -37, 253, -109, -189, 219, 62, -255, 86, 205, -205, -86, 255, -62, -219, 189, 109, -253, 37, 231, -171, -131, 248, -12, -241, 152],
    [-162, 225, 74, -254, 25, 244, -120, -197, 197, 120, -244, -25, 254, -74, -225, 162, 162, -225, -74, 254, -25, -244, 120, 197, -197, -120, 244, 25, -254, 74, 225, -162],
    [-171, 205, 131, -231, -86, 248, 37, -255, 12, 253, -62, -241, 109, 219, -152, -189, 189, 152, -219, -109, 241, 62, -253, -12, 255, -37, -248, 86, 231, -131, -205, 171],
];

pub const N_BLOCK_2: [[i32; 32]; 16] = [
    [-181, 181, 181, -181, -181, 181, 181, -181, -181, 181, 181, -181, -181, 181, 181, -181, -181, 181, 181, -181, -181, 181, 181, -181, -181, 181, 181, -181, -181, 181, 181, -181],
    [-189, 152, 219, -109, -241, 62, 253, -12, -255, -37, 248, 86, -231, -131, 205, 171, -171, -205, 131, 231, -86, -248, 37, 255, 12, -253, -62, 241, 109, -219, -152, 189],
    [-197, 120, 244, -25, -254, -74, 225, 162, -162, -225, 74, 254, 25, -244, -120, 197, 197, -120, -244, 25, 254, 74, -225, -162, 162, 225, -74, -254, -25, 244, 120, -197],
    [-205, 86, 255, 62, -219, -189, 109, 253, 37, -231, -171, 131, 248, 12, -241, -152, 152, 241, -12, -248, -131, 171, 231, -37, -253, -109, 189, 219, -62, -255, -86, 205],
    [-212, 49, 251, 142, -142, -251, -49, 212, 212, -49, -251, -142, 142, 251, 49, -212, -212, 49, 251, 142, -142, -251, -49, 212, 212, -49, -251, -142, 142, 251, 49, -212],
    [-219, 12, 231, 205, -37, -241, -189, 62, 248, 171, -86, -253, -152, 109, 255, 131, -131, -255, -109, 152, 253, 86, -171, -248, -62, 189, 241, 37, -205, -231, -12, 219],
    [-225, -25, 197, 244, 74, -162, -254, -120, 120, 254, 162, -74, -244, -197, 25, 225, 225, 25, -197, -244, -74, 162, 254, 120, -120, -254, -162, 74, 244, 197, -25, -225],
    [-231, -62, 152, 255, 171, -37, -219, -241, -86, 131, 253, 189, -12, -205, -248, -109, 109, 248, 205, 12, -189, -253, -131, 86, 241, 219, 37, -171, -255, -152, 62, 231],
    [-236, -97, 97, 236, 236, 97, -97, -236, -236, -97, 97, 236, 236, 97, -97, -236, -236, -97, 97, 236, 236, 97, -97, -236, -236, -97, 97, 236, 236, 97, -97, -236],
    [-241, -131, 37, 189, 255, 205, 62, -109, -231, -248, -152, 12, 171, 253, 219, 86, -86, -219, -253, -171, -12, 152, 248, 231, 109, -62, -205, -255, -189, -37, 131, 241],
    [-244, -162, -25, 120, 225, 254, 197, 74, -74, -197, -254, -225, -120, 25, 162, 244, 244, 162, 25, -120, -225, -254, -197, -74, 74, 197, 254, 225, 120, -25, -162, -244],
    [-248, -189, -86, 37, 152, 231, 255, 219, 131, 12, -109, -205, -253, -241, -171, -62, 62, 171, 241, 253, 205, 109, -12, -131, -219, -255, -231, -152, -37, 86, 189, 248],
    [-251, -212, -142, -49, 49, 142, 212, 251, 251, 212, 142, 49, -49, -142, -212, -251, -251, -212, -142, -49, 49, 142, 212, 251, 251, 212, 142, 49, -49, -142, -212, -251],
    [-253, -231, -189, -131, -62, 12, 86, 152, 205, 241, 255, 248, 219, 171, 109, 37, -37, -109, -171, -219, -248, -255, -241, -205, -152, -86, -12, 62, 131, 189, 231, 253],
    [-254, -244, -225, -197, -162, -120, -74, -25, 25, 74, 120, 162, 197, 225, 244, 254, 254, 244, 225, 197, 162, 120, 74, 25, -25, -74, -120, -162, -197, -225, -244, -254],
    [-255, -253, -248, -241, -231, -219, -205, -189, -171, -152, -131, -109, -86, -62, -37, -12, 12, 37, 62, 86, 109, 131, 152, 171, 189, 205, 219, 231, 241, 248, 253, 255],
];

pub const N_BLOCK_3: [[i32; 32]; 16] = [
    [-256, -256, -256, -256, -256, -256, -256, -256, -256, -256, -256, -256, -256, -256, -256, -256, -256, -256, -256, -256, -256, -256, -256, -256, -256, -256, -256, -256, -256, -256, -256, -256],
    [-255, -253, -248, -241, -231, -219, -205, -189, -171, -152, -131, -109, -86, -62, -37, -12, 12, 37, 62, 86, 109, 131, 152, 171, 189, 205, 219, 231, 241, 248, 253, 255],
    [-254, -244, -225, -197, -162, -120, -74, -25, 25, 74, 120, 162, 197, 225, 244, 254, 254, 244, 225, 197, 162, 120, 74, 25, -25, -74, -120, -162, -197, -225, -244, -254],
    [-253, -231, -189, -131, -62, 12, 86, 152, 205, 241, 255, 248, 219, 171, 109, 37, -37, -109, -171, -219, -248, -255, -241, -205, -152, -86, -12, 62, 131, 189, 231, 253],
    [-251, -212, -142, -49, 49, 142, 212, 251, 251, 212, 142, 49, -49, -142, -212, -251, -251, -212, -142, -49, 49, 142, 212, 251, 251, 212, 142, 49, -49, -142, -212, -251],
    [-248, -189, -86, 37, 152, 231, 255, 219, 131, 12, -109, -205, -253, -241, -171, -62, 62, 171, 241, 253, 205, 109, -12, -131, -219, -255, -231, -152, -37, 86, 189, 248],
    [-244, -162, -25, 120, 225, 254, 197, 74, -74, -197, -254, -225, -120, 25, 162, 244, 244, 162, 25, -120, -225, -254, -197, -74, 74, 197, 254, 225, 120, -25, -162, -244],
    [-241, -131, 37, 189, 255, 205, 62, -109, -231, -248, -152, 12, 171, 253, 219, 86, -86, -219, -253, -171, -12, 152, 248, 231, 109, -62, -205, -255, -189, -37, 131, 241],
    [-236, -97, 97, 236, 236, 97, -97, -236, -236, -97, 97, 236, 236, 97, -97, -236, -236, -97, 97, 236, 236, 97, -97, -236, -236, -97, 97, 236, 236, 97, -97, -236],
    [-231, -62, 152, 255, 171, -37, -219, -241, -86, 131, 253, 189, -12, -205, -248, -109, 109, 248, 205, 12, -189, -253, -131, 86, 241, 219, 37, -171, -255, -152, 62, 231],
    [-225, -25, 197, 244, 74, -162, -254, -120, 120, 254, 162, -74, -244, -197, 25, 225, 225, 25, -197, -244, -74, 162, 254, 120, -120, -254, -162, 74, 244, 197, -25, -225],
    [-219, 12, 231, 205, -37, -241, -189, 62, 248, 171, -86, -253, -152, 109, 255, 131, -131, -255, -109, 152, 253, 86, -171, -248, -62, 189, 241, 37, -205, -231, -12, 219],
    [-212, 49, 251, 142, -142, -251, -49, 212, 212, -49, -251, -142, 142, 251, 49, -212, -212, 49, 251, 142, -142, -251, -49, 212, 212, -49, -251, -142, 142, 251, 49, -212],
    [-205, 86, 255, 62, -219, -189, 109, 253, 37, -231, -171, 131, 248, 12, -241, -152, 152, 241, -12, -248, -131, 171, 231, -37, -253, -109, 189, 219, -62, -255, -86, 205],
    [-197, 120, 244, -25, -254, -74, 225, 162, -162, -225, 74, 254, 25, -244, -120, 197, 197, -120, -244, 25, 254, 74, -225, -162, 162, 225, -74, -254, -25, 244, 120, -197],
    [-189, 152, 219, -109, -241, 62, 253, -12, -255, -37, 248, 86, -231, -131, 205, 171, -171, -205, 131, 231, -86, -248, 37, 255, 12, -253, -62, 241, 109, -219, -152, 189],
];


/// Quantizer lookup, step 1: (mono or not, bitrate index - 1) to bitrate
/// class.
pub const QUANT_LUT_STEP1: [[u8; 16]; 2] = [
    // 32, 48, 56, 64, 80, 96,112,128,160,192,224,256,320,384 <- bitrate
    [0, 0, 1, 1, 1, 2, 2, 2, 2, 2, 2, 2, 2, 2, 0, 0],  // mono
    // 16, 24, 28, 32, 40, 48, 56, 64, 80, 96,112,128,160,192 <- bitrate / channel
    [0, 0, 0, 0, 0, 0, 1, 1, 1, 2, 2, 2, 2, 2, 0, 0],  // stereo
];

/// Quantizer lookup, step 2: (bitrate class, sample rate) to an encoded
/// pair: the value modulo 64 is `sblimit`, the value divided by 64 is the
/// allocation-table index for step 3.
pub const QUANT_LUT_STEP2: [[u8; 3]; 3] = [
    // 44.1 kHz, 48 kHz, 32 kHz; 91 = 64 + 27 and 94 = 64 + 30 name the
    // high-rate allocation table with sblimit 27 or 30, while 8 and 12 name
    // the low-rate one with sblimit 8 or 12
    [8, 8, 12],  // 32 - 48 kbit/s/channel
    [91, 91, 91],  // 56 - 80 kbit/s/channel
    [94, 91, 94],  // 96+ kbit/s/channel
];

/// Quantizer lookup, step 3: (allocation table, subband) to an encoded
/// pair: the value divided by 16 is `nbal`, the number of allocation bits to
/// read; the value modulo 16 is the row index for step 4.
pub const QUANT_LUT_STEP3: [[u8; 32]; 2] = [
    // low-rate table
    [
        0x44, 0x44,  // SB 0 - 1
        0x34, 0x34, 0x34, 0x34, 0x34, 0x34, 0x34, 0x34, 0x34, 0x34,  // SB 2 - 11
        0, 0, 0, 0, 0, 0, 0, 0, 0, 0, 0, 0, 0, 0, 0, 0, 0, 0, 0, 0,  // padding
    ],
    // high-rate table
    [
        0x43, 0x43, 0x43,  // SB 0 - 2
        0x42, 0x42, 0x42, 0x42, 0x42, 0x42, 0x42, 0x42,  // SB 3 - 10
        0x31, 0x31, 0x31, 0x31, 0x31, 0x31, 0x31, 0x31, 0x31, 0x31, 0x31, 0x31,  // SB 11 - 22
        0x20, 0x20, 0x20, 0x20, 0x20, 0x20, 0x20,  // SB 23 - 29
        0, 0,  // padding
    ],
];

/// Quantizer lookup, step 4: (table row, allocation value) to quantizer
/// table index plus one; 0 means no bits allocated.
pub const QUANT_LUT_STEP4: [[u8; 16]; 5] = [
    [0, 1, 2, 17, 0, 0, 0, 0, 0, 0, 0, 0, 0, 0, 0, 0],
    [0, 1, 2, 3, 4, 5, 6, 17, 0, 0, 0, 0, 0, 0, 0, 0],
    [0, 1, 2, 3, 4, 5, 6, 7, 8, 9, 10, 11, 12, 13, 14, 17],
    [0, 1, 3, 5, 6, 7, 8, 9, 10, 11, 12, 13, 14, 15, 16, 17],
    [0, 1, 2, 4, 5, 6, 7, 8, 9, 10, 11, 12, 13, 14, 15, 17],
];

/// How one subband's samples were quantized: the number of quantization
/// levels, whether three samples share one codeword, the codeword width in
/// bits, and the two fixed-point renormalization constants.
#[derive(Clone, Copy, PartialEq, Eq, Structural)]
pub struct QuantizerSpec {
    pub nlevels: u16,
    pub grouping: u8,
    pub cw_bits: u8,
    pub Smul: u16,
    pub Sdiv: u16,
}

/// Build one quantizer specification record.
pub fn QuantizerSpec(nlevels: u16, grouping: u8, cw_bits: u8, Smul: u16, Sdiv: u16) -> (q:
    QuantizerSpec)
    ensures
        q == (QuantizerSpec { nlevels, grouping, cw_bits, Smul, Sdiv }),
{
    QuantizerSpec { nlevels, grouping, cw_bits, Smul, Sdiv }
}

/// The 17 possible quantizers of Layer II.
pub open spec fn spec_quantizer_table() -> Seq<QuantizerSpec> {
    seq![
        QuantizerSpec { nlevels: 3, grouping: 1, cw_bits: 5, Smul: 0x7FFF, Sdiv: 0xFFFF },
        QuantizerSpec { nlevels: 5, grouping: 1, cw_bits: 7, Smul: 0x3FFF, Sdiv: 0x0002 },
        QuantizerSpec { nlevels: 7, grouping: 0, cw_bits: 3, Smul: 0x2AAA, Sdiv: 0x0003 },
        QuantizerSpec { nlevels: 9, grouping: 1, cw_bits: 10, Smul: 0x1FFF, Sdiv: 0x0002 },
        QuantizerSpec { nlevels: 15, grouping: 0, cw_bits: 4, Smul: 0x1249, Sdiv: 0xFFFF },
        QuantizerSpec { nlevels: 31, grouping: 0, cw_bits: 5, Smul: 0x0888, Sdiv: 0x0003 },
        QuantizerSpec { nlevels: 63, grouping: 0, cw_bits: 6, Smul: 0x0421, Sdiv: 0xFFFF },
        QuantizerSpec { nlevels: 127, grouping: 0, cw_bits: 7, Smul: 0x0208, Sdiv: 0x0009 },
        QuantizerSpec { nlevels: 255, grouping: 0, cw_bits: 8, Smul: 0x0102, Sdiv: 0x007F },
        QuantizerSpec { nlevels: 511, grouping: 0, cw_bits: 9, Smul: 0x0080, Sdiv: 0x0002 },
        QuantizerSpec { nlevels: 1023, grouping: 0, cw_bits: 10, Smul: 0x0040, Sdiv: 0x0009 },
        QuantizerSpec { nlevels: 2047, grouping: 0, cw_bits: 11, Smul: 0x0020, Sdiv: 0x0021 },
        QuantizerSpec { nlevels: 4095, grouping: 0, cw_bits: 12, Smul: 0x0010, Sdiv: 0x0089 },
        QuantizerSpec { nlevels: 8191, grouping: 0, cw_bits: 13, Smul: 0x0008, Sdiv: 0x0249 },
        QuantizerSpec { nlevels: 16383, grouping: 0, cw_bits: 14, Smul: 0x0004, Sdiv: 0x0AAB },
        QuantizerSpec { nlevels: 32767, grouping: 0, cw_bits: 15, Smul: 0x0002, Sdiv: 0x3FFF },
        QuantizerSpec { nlevels: 65535, grouping: 0, cw_bits: 16, Smul: 0x0001, Sdiv: 0xFFFF },
    ]
}

/// The ranges that every entry of the quantizer table obeys; the bitstream
/// and arithmetic preconditions of the sample reader rest on them.
pub open spec fn q_wf(q: QuantizerSpec) -> bool {
    &&& 1 <= q.nlevels
    &&& 1 <= q.cw_bits <= 16
    &&& 1 <= q.Sdiv
}

/// Every entry of the quantizer table is well formed.
pub proof fn lemma_quantizer_table_wf()
    ensures
        spec_quantizer_table().len() == 17,
        forall|k: int| 0 <= k < 17 ==> q_wf(#[trigger] spec_quantizer_table()[k]),
{
    assert forall|k: int| 0 <= k < 17 implies q_wf(#[trigger] spec_quantizer_table()[k]) by {
    }
}

/// The 17 possible quantizers of Layer II, as an array.
pub fn QUANTIZER_TABLE() -> (r: [QuantizerSpec; 17])
    ensures
        r@ == spec_quantizer_table(),
{
    let r = [
        QuantizerSpec { nlevels: 3, grouping: 1, cw_bits: 5, Smul: 0x7FFF, Sdiv: 0xFFFF },
        QuantizerSpec { nlevels: 5, grouping: 1, cw_bits: 7, Smul: 0x3FFF, Sdiv: 0x0002 },
        QuantizerSpec { nlevels: 7, grouping: 0, cw_bits: 3, Smul: 0x2AAA, Sdiv: 0x0003 },
        QuantizerSpec { nlevels: 9, grouping: 1, cw_bits: 10, Smul: 0x1FFF, Sdiv: 0x0002 },
        QuantizerSpec { nlevels: 15, grouping: 0, cw_bits: 4, Smul: 0x1249, Sdiv: 0xFFFF },
        QuantizerSpec { nlevels: 31, grouping: 0, cw_bits: 5, Smul: 0x0888, Sdiv: 0x0003 },
        QuantizerSpec { nlevels: 63, grouping: 0, cw_bits: 6, Smul: 0x0421, Sdiv: 0xFFFF },
        QuantizerSpec { nlevels: 127, grouping: 0, cw_bits: 7, Smul: 0x0208, Sdiv: 0x0009 },
        QuantizerSpec { nlevels: 255, grouping: 0, cw_bits: 8, Smul: 0x0102, Sdiv: 0x007F },
        QuantizerSpec { nlevels: 511, grouping: 0, cw_bits: 9, Smul: 0x0080, Sdiv: 0x0002 },
        QuantizerSpec { nlevels: 1023, grouping: 0, cw_bits: 10, Smul: 0x0040, Sdiv: 0x0009 },
        QuantizerSpec { nlevels: 2047, grouping: 0, cw_bits: 11, Smul: 0x0020, Sdiv: 0x0021 },
        QuantizerSpec { nlevels: 4095, grouping: 0, cw_bits: 12, Smul: 0x0010, Sdiv: 0x0089 },
        QuantizerSpec { nlevels: 8191, grouping: 0, cw_bits: 13, Smul: 0x0008, Sdiv: 0x0249 },
        QuantizerSpec { nlevels: 16383, grouping: 0, cw_bits: 14, Smul: 0x0004, Sdiv: 0x0AAB },
        QuantizerSpec { nlevels: 32767, grouping: 0, cw_bits: 15, Smul: 0x0002, Sdiv: 0x3FFF },
        QuantizerSpec { nlevels: 65535, grouping: 0, cw_bits: 16, Smul: 0x0001, Sdiv: 0xFFFF },
    ];
    proof {
        assert(r@ =~= spec_quantizer_table());
    }
    r
}

/// Every step-1 class is a valid row index for step 2.
pub proof fn lemma_step1_range()
    ensures
        forall|r: int, i: int|
            0 <= r < 2 && 0 <= i < 16 ==> #[trigger] QUANT_LUT_STEP1[r][i] <= 2,
{
}

/// Every step-2 entry decodes to a valid `sblimit` and table index.
pub proof fn lemma_step2_range()
    ensures
        forall|r: int, i: int|
            0 <= r < 3 && 0 <= i < 3 ==> 8 <= #[trigger] QUANT_LUT_STEP2[r][i] % 64 <= 30,
        forall|r: int, i: int|
            0 <= r < 3 && 0 <= i < 3 ==> #[trigger] QUANT_LUT_STEP2[r][i] / 64 <= 1,
{
}

/// Every step-3 entry decodes to at most 4 allocation bits and a valid row
/// index for step 4.
pub proof fn lemma_step3_range()
    ensures
        forall|r: int, i: int|
            0 <= r < 2 && 0 <= i < 32 ==> #[trigger] QUANT_LUT_STEP3[r][i] / 16 <= 4,
        forall|r: int, i: int|
            0 <= r < 2 && 0 <= i < 32 ==> #[trigger] QUANT_LUT_STEP3[r][i] % 16 <= 4,
{
}

/// Every step-4 entry is a valid quantizer-table index plus one, or 0.
pub proof fn lemma_step4_range()
    ensures
        forall|r: int, i: int|
            0 <= r < 5 && 0 <= i < 16 ==> #[trigger] QUANT_LUT_STEP4[r][i] <= 17,
{
}

/// The lookup tables gathered in one place, as the shared decode context
/// holds them.
pub struct MP2Constants {
    pub QUANT_LUT_STEP1: [[u8; 16]; 2],
    pub QUANT_LUT_STEP2: [[u8; 3]; 3],
    pub QUANT_LUT_STEP3: [[u8; 32]; 2],
    pub QUANT_LUT_STEP4: [[u8; 16]; 5],
    pub QUANTIZER_TABLE: [QuantizerSpec; 17],
}

impl MP2Constants {
    /// The tables hold exactly the canonical constants.
    #[verifier::opaque]
    pub open spec fn wf(self) -> bool {
        &&& self.QUANT_LUT_STEP1 == QUANT_LUT_STEP1
        &&& self.QUANT_LUT_STEP2 == QUANT_LUT_STEP2
        &&& self.QUANT_LUT_STEP3 == QUANT_LUT_STEP3
        &&& self.QUANT_LUT_STEP4 == QUANT_LUT_STEP4
        &&& self.QUANTIZER_TABLE@ == spec_quantizer_table()
    }
}

/// What the well-formedness of the constants gives: each table is the
/// canonical one.
pub proof fn lemma_constants_wf(c: MP2Constants)
    requires
        c.wf(),
    ensures
        c.QUANT_LUT_STEP1 == QUANT_LUT_STEP1,
        c.QUANT_LUT_STEP2 == QUANT_LUT_STEP2,
        c.QUANT_LUT_STEP3 == QUANT_LUT_STEP3,
        c.QUANT_LUT_STEP4 == QUANT_LUT_STEP4,
        c.QUANTIZER_TABLE@ == spec_quantizer_table(),
{
    reveal(MP2Constants::wf);
}

/// Gather the lookup tables of the decode context.
pub fn MP2Constants() -> (c: MP2Constants)
    ensures
        c.wf(),
{
    let c = MP2Constants {
        QUANT_LUT_STEP1,
        QUANT_LUT_STEP2,
        QUANT_LUT_STEP3,
        QUANT_LUT_STEP4,
        QUANTIZER_TABLE: QUANTIZER_TABLE(),
    };
    proof {
        reveal(MP2Constants::wf);
    }
    c
}

/// Entry `[i][j]` of the cosine matrix, across the four blocks.
pub open spec fn n_coef(i: int, j: int) -> i32 {
    if i < 16 {
        N_BLOCK_0[i][j]
    } else if i < 32 {
        N_BLOCK_1[i - 16][j]
    } else if i < 48 {
        N_BLOCK_2[i - 32][j]
    } else {
        N_BLOCK_3[i - 48][j]
    }
}

/// Assemble the full 64x32 cosine matrix, as the decode context holds it.
pub fn build_cosine_matrix() -> (n: [[i32; 32]; 64])
    ensures
        forall|i: int, j: int| 0 <= i < 64 && 0 <= j < 32 ==> n[i][j] == n_coef(i, j),
{
    let mut n: [[i32; 32]; 64] = [[0i32; 32]; 64];
    let mut i: usize = 0;
    while i < 16
        invariant
            i <= 16,
            forall|a: int| 0 <= a < i ==> n[a] == N_BLOCK_0[a],
            forall|a: int| 0 <= a < i ==> n[a + 16] == N_BLOCK_1[a],
            forall|a: int| 0 <= a < i ==> n[a + 32] == N_BLOCK_2[a],
            forall|a: int| 0 <= a < i ==> n[a + 48] == N_BLOCK_3[a],
        decreases 16 - i,
    {
        n[i] = N_BLOCK_0[i];
        n[i + 16] = N_BLOCK_1[i];
        n[i + 32] = N_BLOCK_2[i];
        n[i + 48] = N_BLOCK_3[i];
        i = i + 1;
    }
    n
}

} // verus!
