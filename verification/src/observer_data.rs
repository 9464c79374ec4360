//! Colour-matching functions of the 1931 2-degree and 1964 10-degree standard
//! observers, one sample per nanometre from 360 nm to 830 nm (471 samples), as
//! binary64 bit patterns.
//!
//! The values are the analytic approximations of the CIE functions by Wyman,
//! Sloan and Shirley (2013), rounded to seven significant digits: for 1931 the
//! multi-lobe piecewise Gaussian fit, scaled so that y-bar is exactly 1 at
//! 555 nm; for 1964 the single-lobe fit. They follow the tabulated CIE values
//! to within a few per cent of the peak, not exactly.
use vstd::prelude::*;

verus! {

/// x-bar of the 1931 2-degree observer, 360 nm to 830 nm.
pub const CIE1931_2_X_BAR: [u64; 471] = [
    0x3ea828f6d7083e2e, 0x3eb099fa5a7a23da, 0x3eb6ba53e8d34539, 0x3ebefed2bf39402f, 0x3ec50dc357396244, 0x3ecc7dc57d5cba8e,
    0x3ed3341d79294798, 0x3ed9c96a4a890672, 0x3ee13f0c0c7a7057, 0x3ee6faaeb781efab, 0x3eee7fc05231a565, 0x3ef429431f8360c5,
    0x3efa8d1cfd1c90fc, 0x3f016a5075cd2d63, 0x3f06c1c83fd4ec28, 0x3f0d9f0eaedd8e3c, 0x3f1333fc6b51dbe0, 0x3f18cd1bf62c76e9,
    0x3f1fe816990d7171, 0x3f2471a1e4deeac6, 0x3f2a18affa2e2ee7, 0x3f30974eea079602, 0x3f35037d7b0f71b6, 0x3f3a82ec91b5b5df,
    0x3f40a89be26b91ec, 0x3f44da814e1ad675, 0x3f4a00c7dd161e8f, 0x3f50261e7ce1b5ba, 0x3f53fae1e698029e, 0x3f589fa8403f4f0f,
    0x3f5e3a6ea2055f21, 0x3f627b60512c2022, 0x3f6683186799b105, 0x3f6b506d4d2cd0e6, 0x3f7081754f513aca, 0x3f73dee6f81399dd,
    0x3f77d4189b8251ff, 0x3f7c7693e3aabd61, 0x3f80eef3797014a1, 0x3f8411d07330b566, 0x3f87b1a279e7f877, 0x3f8bdd171cd21dc5,
    0x3f9051d9668e2979, 0x3f930ad921efbeea, 0x3f9621f4f25ad0dc, 0x3f999fc60384efbe, 0x3f9d8cfba67f0544, 0x3fa0f91b8a4a1b57,
    0x3fa36bf29761b0f5, 0x3fa6230919843584, 0x3fa9221d6139d6bb, 0x3fac6c8a6cd5ec30, 0x3fb00297340ea55f, 0x3fb1f725e6c46fb1,
    0x3fb414b6c65030f0, 0x3fb65ba54244482e, 0x3fb8cbd4296279f3, 0x3fbb64a09388de60, 0x3fbe24d6791df90f, 0x3fc08552bab7f753,
    0x3fc209cd085bef14, 0x3fc39e4bb001baeb, 0x3fc540eaabdae4be, 0x3fc6ef6f8f041462, 0x3fc8a74ce08362f6, 0x3fca65a57646ae3a,
    0x3fcc27525460aa65, 0x3fcde8ebe7444758, 0x3fcfa6cfe301c278, 0x3fd0ae982e5f8edc, 0x3fd1840f5939573a, 0x3fd251cdbd8d94a9,
    0x3fd315d1f95c77d0, 0x3fd3ce21cc02a272, 0x3fd478d1a2f562ee, 0x3fd5140e3f5de3e1, 0x3fd59e2300b60865, 0x3fd615831f03d146,
    0x3fd678cff5763942, 0x3fd6c6e165e10569, 0x3fd6fec7863beec4, 0x3fd71fd3041e72b2, 0x3fd72996d23efc95, 0x3fd72356b1bd7cce,
    0x3fd7147f13059642, 0x3fd6fd149334fb8a, 0x3fd6dd26b723ee1c, 0x3fd6b4cbb9a7561b, 0x3fd68422390fec06, 0x3fd64b50cbca6e4e,
    0x3fd60a8594ffd6e5, 0x3fd5c1f5d93590dc, 0x3fd571dd92edadee, 0x3fd51a7fde06b0f4, 0x3fd4bc24dedc99c9, 0x3fd4571b6fc80ef8,
    0x3fd3ebb69cdf9f37, 0x3fd37a4ee61720ae, 0x3fd3034168801c1a, 0x3fd286ed5a0b0e51, 0x3fd205b76485bb96, 0x3fd18005087d7d03,
    0x3fd0f63ff83d93df, 0x3fd068d2bcd0d647, 0x3fcfb053f0421cdb, 0x3fce896645af36ba, 0x3fcd5db918bae1e9, 0x3fcc2e29def69afc,
    0x3fcafb97bb730835, 0x3fc9c6df4d021152, 0x3fc890dd32759e12, 0x3fc75a6d33e0015d, 0x3fc624689514cf9b, 0x3fc4efa53ee949db,
    0x3fc3bcf91a32b12d, 0x3fc28d3359c99ff2, 0x3fc161233086b089, 0x3fc039911b45d6a4, 0x3fbe2e8625488ee5, 0x3fbbf5f260044c96,
    0x3fb9cae21101b003, 0x3fb7aebf9b8be221, 0x3fb5a2ef58bddc44, 0x3fb3a8c7b4dff117, 0x3fb1c19332cd31cd, 0x3fafdd1dd2cec474,
    0x3fac61d4057b3f11, 0x3fa9138a76660dd1, 0x3fa5f463bf9805f1, 0x3fa306614310f6c8, 0x3fa04b6380ade556, 0x3f9b8a4e2221e8de,
    0x3f96ea89f70f4090, 0x3f92ba5e0a4c5f29, 0x3f8df8c5791b74d1, 0x3f8765bfcd5fefaa, 0x3f81bf97b00a744d, 0x3f7a132d9e0cb4b3,
    0x3f728cc3c8414cd1, 0x3f69dfe24aafc8fd, 0x3f627edc98b68983, 0x3f5df2c5c0fb18a1, 0x3f5e3740bc9148f1, 0x3f62981d98973b1b,
    0x3f696c16f6dee677, 0x3f71ca5ca76d3936, 0x3f7887472069c6b2, 0x3f8075651818e1b4, 0x3f857953d3e79e34, 0x3f8b4e3618ebb444,
    0x3f90f95f51f51540, 0x3f94b2c63b632d77, 0x3f98d297e7e8b206, 0x3f9d5817184a79a1, 0x3fa1214244f3fae4, 0x3fa3c88d77f8342f,
    0x3fa6a18b2a9600b3, 0x3fa9abd75ecc133e, 0x3face70fc418484b, 0x3fb02968af1602a1, 0x3fb1f75c6d693a00, 0x3fb3dd324aaaf40a,
    0x3fb5dab9498d3cbf, 0x3fb7efc097b53de5, 0x3fba1c16b6fbaa30, 0x3fbc5f8b80d22277, 0x3fbeb9ecf6380022, 0x3fc0958461233087,
    0x3fc1d955714b9cb7, 0x3fc3284faa623eb9, 0x3fc4825834747bd3, 0x3fc5e750dc9165ee, 0x3fc7571df406cd7a, 0x3fc8d19ec3a505de,
    0x3fca56b1bd7ccdb1, 0x3fcbe6347cdf4eb0, 0x3fcd80006b5fca6b, 0x3fcf23eb97932f1c, 0x3fd068e60807357e, 0x3fd144b90214ad36,
    0x3fd22554b8bef8cf, 0x3fd30a9e54137d8b, 0x3fd3f4780c8117c3, 0x3fd4e2c20197afb5, 0x3fd5d5596348a4b4, 0x3fd6cc19b4062c6a,
    0x3fd7c6db1b442925, 0x3fd8c572d0d7f448, 0x3fd9c7b45f17bd8c, 0x3fdacd6e47dc37a4, 0x3fdbd66dcadeb603, 0x3fdce27b8abad985,
    0x3fddf15e112d4eee, 0x3fdf02d7b634dad3, 0x3fe00b5426c8c1a5, 0x3fe09645bca2b31e, 0x3fe1221d6139d6bb, 0x3fe1aeb58a90e81a,
    0x3fe23be76c8b4396, 0x3fe2c98af8ece648, 0x3fe35775d2eaf3ff, 0x3fe3e57cc6fafbb4, 0x3fe47372be637d7e, 0x3fe50129cbab649d,
    0x3fe58e72898a57dd, 0x3fe61b1c1ae8b992, 0x3fe6a6f4963f7206, 0x3fe731c9a6a79f16, 0x3fe7bb67b51aff60, 0x3fe8439a1e23d776,
    0x3fe8ca2c3e4c6be9, 0x3fe94ee89b5f6c77, 0x3fe9d1994fc7be70, 0x3fea5208aba02c5b, 0x3fead00093a3b653, 0x3feb4b4b223d41aa,
    0x3febc3b2dd377e1c, 0x3fec3902800d009a, 0x3fecab059cf7f2eb, 0x3fed198867422e79, 0x3fed8457e8f52180, 0x3fedeb42a3e97eb4,
    0x3fee4e17bb07a86b, 0x3feeaca834670fda, 0x3fef06c68dee6aac, 0x3fef5c46f303983b, 0x3fefacffa7eb6bf4, 0x3feff8c868b9fdbd,
    0x3ff01fbd6a593a2e, 0x3ff0407aaef2c732, 0x3ff05e8b3b320536, 0x3ff079df548ecd8e, 0x3ff09269595feda6, 0x3ff0a81cb46bacf7,
    0x3ff0baeddce7cd03, 0x3ff0cad362e90364, 0x3ff0d7c4e2f37fbf, 0x3ff0e1bc126a65cf, 0x3ff0e8b4bf8fcd68, 0x3ff0eca9ac365450,
    0x3ff0ed9274e22a2c, 0x3ff0ea715831f03d, 0x3ff0e2d0e5604189, 0x3ff0d6b54e2b063e, 0x3ff0c62a1b5c7cd9, 0x3ff0b13ad5bee3d6,
    0x3ff097f84449dbec, 0x3ff07a786c22680a, 0x3ff058d045fe1112, 0x3ff0331c219eb639, 0x3ff009784ec636b1, 0x3fefb8088509bf9c,
    0x3fef55c8bf21129f, 0x3feeec7ab24dc586, 0x3fee7c6e4557f8e5, 0x3fee05f72565eb16, 0x3fed896c904c12fe, 0x3fed0729f59ccfaf,
    0x3fec7f8d13795988, 0x3febf2f6cd51570b, 0x3feb61c97e63b32e, 0x3feacc699ace4d00, 0x3fea333d0e7e4804, 0x3fe996a9c560c7c1,
    0x3fe8f716ed824efa, 0x3fe854eade2fcba0, 0x3fe7b08beeb62ba1, 0x3fe70a5f3442fdac, 0x3fe662c8b7945664, 0x3fe5ba2a9e393b8b,
    0x3fe510e560418937, 0x3fe46756861e9292, 0x3fe3bdd97f62b6ae, 0x3fe314c660a20147, 0x3fe26c724ed1f52b, 0x3fe1c52ea889f765,
    0x3fe11f493bb33475, 0x3fe07b0c0fd8bb18, 0x3fdfb17a60ef2e21, 0x3fde713c17de4317, 0x3fdd35d8ffe0f64f, 0x3fdbffc2c35e8f02,
    0x3fdacf6314a24e74, 0x3fd9a51a6bbc10bd, 0x3fd8814006804cc1, 0x3fd7642396073de2, 0x3fd64e0a4f0e5b0d, 0x3fd53f316e371540,
    0x3fd437ce3806d78b, 0x3fd3380cb6c7a7ca, 0x3fd2401168075056, 0x3fd14ff865d7cb2e, 0x3fd067d6a8eea133, 0x3fcf0f733a8a3f8a,
    0x3fcd5f50c86f6ffa, 0x3fcbbf4524cd3ee3, 0x3fca2f43ba69f3ba, 0x3fc8af350c51471a, 0x3fc73ef508553917, 0x3fc5de5738cbf968,
    0x3fc48d2369919412, 0x3fc34b1ab0856e69, 0x3fc217f5c00b1d6a, 0x3fc0f365bdc9fa8a, 0x3fbfba2be0589acc, 0x3fbda9577cbe9780,
    0x3fbbb38f0e255cb1, 0x3fb9d80c9befb52f, 0x3fb81601492b4223, 0x3fb66c98af8ece64, 0x3fb4dafab7ec95eb, 0x3fb3604b9a3245cd,
    0x3fb1fbad8ae825ef, 0x3fb0ac413c0a724a, 0x3faee24fc0dd804e, 0x3fac930555d5499e, 0x3faa68e94d8bf9f4, 0x3fa86246c70ec7c4,
    0x3fa67d6eeb9b1921, 0x3fa4b8b99a6afacb, 0x3fa312876c1a8567, 0x3fa189430a40cba2, 0x3fa01b60d9899ea5, 0x3f9d8ebff6d08162,
    0x3f9b1798a2f994ac, 0x3f98ce79a02a0186, 0x3f96b0abaeefed0d, 0x3f94bb906466b1e6, 0x3f92eca585353394, 0x3f91418052f69d00,
    0x3f8f6fa8846e0e50, 0x3f8c9adb381f8125, 0x3f8a006703196501, 0x3f879c4e7fbfd3c0, 0x3f856acb4ff50ad9, 0x3f8368447332b8cb,
    0x3f8191589c3d26c1, 0x3f7fc5a77227ee39, 0x3f7cb3641270925c, 0x3f79e63b66661917, 0x3f7758d9c7176761, 0x3f750640a5a65c0f,
    0x3f72e9c4658652d1, 0x3f70ff06fe186ba9, 0x3f6e83eb2063bc82, 0x3f6b5d8ae463dc0c, 0x3f6883deb61d21be, 0x3f65f059664525c6,
    0x3f639ce8b716b5ad, 0x3f6183edd82c9ebc, 0x3f5f406dea7a6deb, 0x3f5bd9f076cb0d85, 0x3f58cb8e086bdf4c, 0x3f560d24a319ed5e,
    0x3f53973e1709535d, 0x3f5162fdbff897c6, 0x3f4ed43a6223211c, 0x3f4b4dbbda122df6, 0x3f482800f944e7f6, 0x3f455976657859f8,
    0x3f42d9632a941faa, 0x3f409fd78c9e7d67, 0x3f3d4b3bfee3ea2e, 0x3f39c85760feb744, 0x3f36ab26da965647, 0x3f33e8f113d5aa29,
    0x3f317803fcf7a867, 0x3f2e9f42f4f3e7ac, 0x3f2acfceafb1fc14, 0x3f27737a7b3a40c0, 0x3f247d87069d67aa, 0x3f21e28093385689,
    0x3f1f3046efa899e8, 0x3f1b2a7f8fc01781, 0x3f17a33cb501f4e1, 0x3f148bd122a891a6, 0x3f11d72641b118f3, 0x3f0ef326230d74d5,
    0x3f0ad171301bb723, 0x3f0736bf630e8e7f, 0x3f0412b5fff6aebf, 0x3f0156d62cc8371d, 0x3efdec96edf5edd5, 0x3ef9cb7c417959fa,
    0x3ef63655db067efe, 0x3ef31b794cd9e2b4, 0x3ef06b584bc51d25, 0x3eec30886c1e5900, 0x3ee82c6cd39184c7, 0x3ee4b5442db2a17f,
    0x3ee1b89114bb59d8, 0x3ede4c45d97de7ef, 0x3ed9dfa489e891ea, 0x3ed612868a39016e, 0x3ed2cf5c4e0d2475, 0x3ed0035e380f0cb5,
    0x3ecb3c6947ead36c, 0x3ec723592af4af92, 0x3ec3a2e45a211aba, 0x3ec0a5ac36b0f228, 0x3ebc325bb6fbd054, 0x3eb7dad21b02cc4b,
    0x3eb42911a523a574, 0x3eb1053fa559126a, 0x3eacb59783312956, 0x3ea830043cf1a736, 0x3ea45b55e3ad3a85, 0x3ea11d697f91211b,
    0x3e9cbfa6c9e1eac7, 0x3e981ebcaed151dd, 0x3e9437350477b34a, 0x3e90ecf6c988dcd8, 0x3e8c5009fff52c1b, 0x3e87a7d5cd8ff94a,
    0x3e83be78ddb1380e, 0x3e80764d0a49bec5, 0x3e7b6c420f73ed5d, 0x3e76d12884787133, 0x3e72f70a9536b30e, 0x3e6f7e6930f42be8,
    0x3e6a1f5d49fe7355, 0x3e65a5107f1d1d46, 0x3e61ea7abc8bc2ad, 0x3e5da0cb46adfe29, 0x3e58791331da0f97, 0x3e5431993b2f1a13,
    0x3e50a53bf9b9bf1c, 0x3e4b69a7ab19552b, 0x3e468c88f5e1f118, 0x3e428765ca26ab86, 0x3e3e6b5cd18469a6, 0x3e38f1b67d0a74ce,
    0x3e346ee67240d0c0, 0x3e30b878a9640f66, 0x3e2b562d0ec352a6, 0x3e2652bc6247799b, 0x3e2235d1c0f61f02, 0x3e1dade3a49fe923,
    0x3e182920720b99ee, 0x3e13a5d12d39a39e, 0x3e0fec1a7c695619, 0x3e09e7d56c69aea7, 0x3e0500469e0b7366, 0x3e0101e3df2cd689,
    0x3dfb848590d21f62, 0x3df63d082e32285a, 0x3df1f40a1e847842, 0x3decf522d6fbb796, 0x3de7544150512a10, 0x3de2c66e77f5abf5,
    0x3dde305321d4128e, 0x3dd83ec6428b5c94, 0x3dd3739a1a15185e, 0x3dcf2dcf51abe2b5, 0x3dc8f65f726b0f2a, 0x3dc3f6ebda100360,
    0x3dbfe6c400f7f262, 0x3db97612e580d707, 0x3db44cce109d4431, 0x3db02b0efe7648f7, 0x3da9ba59e83696f2, 0x3da472e024898a59,
    0x3da03c62b7223ccd, 0x3d99c14ee1f0948b, 0x3d94681223d1ba9f, 0x3d9026e0f05003b0, 0x3d898abf3d118a71, 0x3d842cb12879f7ff,
    0x3d7fd646deb3615b, 0x3d791830f360e067, 0x3d73c264c078722c,
];

/// y-bar of the 1931 2-degree observer, 360 nm to 830 nm.
pub const CIE1931_2_Y_BAR: [u64; 471] = [
    0x3f056b2c34f08458, 0x3f078bcd27347d2d, 0x3f09df841a658bbd, 0x3f0c6acba4237865, 0x3f0f327bcf6d89c6, 0x3f111de7760b3f0c,
    0x3f12c635c2d13eab, 0x3f149534c5588909, 0x3f168e2d9dfc8e89, 0x3f18b4ab0da26475, 0x3f1b0c7e7127be13, 0x3f1d99c0714eebae,
    0x3f203070527be274, 0x3f21b34ed502d9d8, 0x3f23580971e7d094, 0x3f25215ed144f743, 0x3f271241255836f5, 0x3f292dd99a1f2c69,
    0x3f2b778bc4f32349, 0x3f2df2f914251162, 0x3f305202fb33c7c1, 0x3f31c76e3741eaef, 0x3f335bf89d61da78, 0x3f351203a246c859,
    0x3f36ec1b3fce2b85, 0x3f38ecf7accdbd88, 0x3f3b177f14e17825, 0x3f3d6ec9e3ee8f5b, 0x3f3ff625c7cbed3a, 0x3f41588ad82118f3,
    0x3f42d1ac20281552, 0x3f446874c2fc67bb, 0x3f461f0334ef9f2a, 0x3f47f7976a841c1e, 0x3f49f496110f4c17, 0x3f4c188933a6e8bb,
    0x3f4e662229e8b51f, 0x3f50701da7e43db5, 0x3f51c4eeb1f9e2b0, 0x3f53331db9a45103, 0x3f54bc5d9c70ed06, 0x3f566277c45cbbc3,
    0x3f582753abf99888, 0x3f5a0cf06d29bdd8, 0x3f5c156b32643c7c, 0x3f5e42ff36b4fb7d, 0x3f604c036c4ebb58, 0x3f618b7d439a0013,
    0x3f62e13b99b41ba6, 0x3f644e9d8bb066a9, 0x3f65d51364ae21de, 0x3f6776225feb10f4, 0x3f69336170213f04, 0x3f6b0e7b65487b91,
    0x3f6d09319bc836d5, 0x3f6f2558c3d54632, 0x3f70b26edb329ec1, 0x3f71e4e11e4619c8, 0x3f732b1068c7ae6f, 0x3f7486160cba5630,
    0x3f75f717b5399965, 0x3f777f47ab31bee1, 0x3f791fe51a17fb97, 0x3f7ada3d678360b7, 0x3f7cafaa96dbbdf0, 0x3f7ea1956f1b1e72,
    0x3f8058ba33f68536, 0x3f8170665e47a2c6, 0x3f8298995844ff52, 0x3f83d224831fb835, 0x3f851de19256af39, 0x3f867caffee0c629,
    0x3f87ef781d730281, 0x3f89772cdd2dc307, 0x3f8b14c3dc6342c5, 0x3f8cc93ecdc61c04, 0x3f8e95a4c26ca194, 0x3f903d83184dd49f,
    0x3f913d3e79e345e0, 0x3f924a937715b620, 0x3f936615b39b786c, 0x3f94905edd5b0f70, 0x3f95ca08a23afdd8, 0x3f9713b411eae40f,
    0x3f986e043f7fc7b6, 0x3f99d99f990d01c6, 0x3f9b57313f3d2cb1, 0x3f9ce7685985ad54, 0x3f9e8af4bb285f9b, 0x3fa02146cc981e9a,
    0x3fa107756a3a5b71, 0x3fa1f863d465c85c, 0x3fa2f47156847113, 0x3fa3fbff954c020c, 0x3fa50f70e13e9ecc, 0x3fa62f298e43d00e,
    0x3fa75b8ef1f5d128, 0x3fa89508bb3a7e2b, 0x3fa9dbff9aaa65c5, 0x3fab30de9a29b75e, 0x3fac9412c7020797, 0x3fae060adbfc14b9,
    0x3faf873898f8b4dd, 0x3fb08c0861786af6, 0x3fb15c856707a109, 0x3fb235511aa4c6f4, 0x3fb316ac13efa10d, 0x3fb400d8eded58de,
    0x3fb4f41df487a6d3, 0x3fb5f0c5248cd236, 0x3fb6f71cac890a80, 0x3fb80778445f557b, 0x3fb92231832fcac9, 0x3fba47a8353dcf6e,
    0x3fbb784662bae03b, 0x3fbcb47e216e0ed1, 0x3fbdfcc83d1b1382, 0x3fbf51ae487d4753, 0x3fc059e2ca651380, 0x3fc111d798d8a97a,
    0x3fc1d10e7aed0628, 0x3fc297e8bf719a77, 0x3fc366d018b1a7ad, 0x3fc43e39f77292c5, 0x3fc51ea282766765, 0x3fc60890c839c015,
    0x3fc6fc9795b35b0c, 0x3fc7fb52f2155bb2, 0x3fc90567480db5cb, 0x3fca1b83ea04ebf8, 0x3fcb3e5fb71fbc5e, 0x3fcc6eb697006226,
    0x3fcdad4cd4c4e8d3, 0x3fcefae50e0c323d, 0x3fd02c2374794ea0, 0x3fd0e319aacbf105, 0x3fd1a2b3892ee84b, 0x3fd26b49faf5d504,
    0x3fd33d2eca17e6a7, 0x3fd418aa1af11d0e, 0x3fd4fdf853635463, 0x3fd5ed46bfd7f1c4, 0x3fd6e6b17a60ef2e, 0x3fd7ea41bd39b1d2,
    0x3fd8f7e945a9577d, 0x3fda0f80a6838ce8, 0x3fdb30c6dcc8c353, 0x3fdc5b5c4728b37d, 0x3fdd8ec311622813, 0x3fdeca5df2239e6b,
    0x3fe006b77475f3a2, 0x3fe0ab8afdf563c5, 0x3fe1532a7f2f8b08, 0x3fe1fd061acc3421, 0x3fe2a88051c9f72f, 0x3fe354ed2cbea4ec,
    0x3fe401956125b4c5, 0x3fe4adb75dcfbef0, 0x3fe55889cf213ae3, 0x3fe6013d82418e40, 0x3fe6a700f5c94559, 0x3fe749023cf12217,
    0x3fe7e67366ffe95a, 0x3fe87e8b5609f7d1, 0x3fe9108afd1ea430, 0x3fe99bbed81783aa, 0x3fea1f827c46a27c, 0x3fea9b42b1557802,
    0x3feb0e7ff583a53c, 0x3feb78d09685e8e3, 0x3febd9e2295563e0, 0x3fec3182c46afe7c, 0x3fec8357a355043e, 0x3fecd1e2ebf302c1,
    0x3fed1d10e7aed063, 0x3fed64cf2211a2c0, 0x3feda90d753388c4, 0x3fede9bd9e5ba03a, 0x3fee26d33e0015cf, 0x3fee6043a2163fdd,
    0x3fee9606317268d3, 0x3feec814006804cc, 0x3feef667d0c9b18f, 0x3fef20fe7d4900fb, 0x3fef47d622b6e42d, 0x3fef6aef2c732592,
    0x3fef8a4adc9d2469, 0x3fefa5ec58834ed4, 0x3fefbdd872f33ca3, 0x3fefd214d57a1a78, 0x3fefe2a8d7243ea4, 0x3fefef9d111d5eb6,
    0x3feff8fb2900aa4a, 0x3feffecd9b28e5d2, 0x3ff00090b417ca21, 0x3ff0000000000000, 0x3feffb79be31ff57, 0x3feff39ba35f1539,
    0x3fefe874c8ffb8b2, 0x3fefda147e3c4601, 0x3fefc88a47ecfe9b, 0x3fefb3e6ed098337, 0x3fef9c3ac929aa1d, 0x3fef8196d8f4f93c,
    0x3fef640c4ec2dbb2, 0x3fef43ac929aa1d7, 0x3fef20890c839c01, 0x3feefab38fe4e4f2, 0x3feed23d84c5ccfe, 0x3feea73315004245,
    0x3fee78f5b52362dc, 0x3fee4741a840fc4a, 0x3fee1229987fbe26, 0x3fedd9c1a7d59c7f, 0x3fed9e1d8cd8c0f7, 0x3fed5f52ab9e7edc,
    0x3fed1d769dec0eb1, 0x3fecd89f68e67367, 0x3fec90e3e87244c1, 0x3fec465bcf33af5a, 0x3febf91f057ec502, 0x3feba94614b7472a,
    0x3feb56e9f1a0c1ac, 0x3feb022467be553b, 0x3feaab0f42932287, 0x3fea51c52461df18, 0x3fe9f66079bd5b40, 0x3fe998fcf157c690,
    0x3fe939b604336b67, 0x3fe8d8a72b529422, 0x3fe875ed21d6ea5d, 0x3fe811a3cc2282e2, 0x3fe7abe81b06ec83, 0x3fe744d693f5ebaa,
    0x3fe6dc8c27c10f29, 0x3fe67325c739e5d5, 0x3fe608c0ce91c8eb, 0x3fe59d79c33a7cd4, 0x3fe5316e01655ace, 0x3fe4c4ba44340c77,
    0x3fe4577b46c83b6e, 0x3fe3e9cdc443914f, 0x3fe37bce0c67ed4f, 0x3fe30d983947496b, 0x3fe29f482f43ba6a, 0x3fe230f9675f8aaa,
    0x3fe1c2c683dd6fb2, 0x3fe154ca925fe975, 0x3fe0e71f5e6a18a3, 0x3fe079deb37f1ded, 0x3fe00d211b02bac5, 0x3fdf41fe3cb16136,
    0x3fde6b20e04a5813, 0x3fdd95d843f95414, 0x3fdcc25072085b18, 0x3fdbf0b432a213bc, 0x3fdb212d77318fc5, 0x3fda53e34183580f,
    0x3fd988fbbca4609d, 0x3fd8c09afac2a95d, 0x3fd7fae3608d0892, 0x3fd737f539d36065, 0x3fd677ef904633c1, 0x3fd5baee7df77ca4,
    0x3fd5010d4639a035, 0x3fd44a64a820451a, 0x3fd3970b49e01de2, 0x3fd2e7168f8e7ddd, 0x3fd23a98eda22f6a, 0x3fd191a401d26817,
    0x3fd0ec467a37d483, 0x3fd04a8dc2cbc20b, 0x3fcf590986917f19, 0x3fce246bf01322f2, 0x3fccf7502e15bd01, 0x3fcbd1c1ff1370f6,
    0x3fcab3cb740738d9, 0x3fc99d6fe7ef6802, 0x3fc88eb1084b281c, 0x3fc7878dfe5ae452, 0x3fc68801c1a11fa0, 0x3fc59003eea209ab,
    0x3fc49f8b4b223d42, 0x3fc3b6899468d831, 0x3fc2d4f087bcf843, 0x3fc1faac0328a96c, 0x3fc127a8bb758c74, 0x3fc05bd00a6eeecb,
    0x3fbf2e118b42bec1, 0x3fbdb2702a3486f0, 0x3fbc4484944ed6fe, 0x3fbae410b630a915, 0x3fb990d854eb3ed3, 0x3fb84a97a8d39e4d,
    0x3fb7110b40250924, 0x3fb5e3ec790f8b63, 0x3fb4c2f3851d60b9, 0x3fb3add6119a0651, 0x3fb2a44920048246, 0x3fb1a600045cb106,
    0x3fb0b2ad91c915b3, 0x3faf940687ae8a97, 0x3fadd765820fe525, 0x3fac2ed9b23876ea, 0x3faa99c56376f2d1, 0x3fa91789df67592b,
    0x3fa7a789c73e986c, 0x3fa64928bde451a4, 0x3fa4fbcabc266169, 0x3fa3bed5be380987, 0x3fa291b117e579ed, 0x3fa173c676468347,
    0x3fa0648133f21fee, 0x3f9ec69eb5624cfc, 0x3f9cdf4346fc93ba, 0x3f9b11d6ed0c3268, 0x3f995d452a8188d7, 0x3f97c0818fe28ba6,
    0x3f963a84604c70f2, 0x3f94ca4dec7203a9, 0x3f936ee3379d5032, 0x3f922751fe7a6edc, 0x3f90f2ad5c19307e, 0x3f8fa023a16fd1ca,
    0x3f8d7d411e585ab5, 0x3f8b7b07075b3e14, 0x3f8997d6a0e10b9e, 0x3f87d21e9b4ba067, 0x3f86285dc2280329, 0x3f8499204cfc87fb,
    0x3f8322ff783488e3, 0x3f81c4a4e01eb929, 0x3f807cc6130e1383, 0x3f7e944d6e36ae2c, 0x3f7c572f77f8f129, 0x3f7a3fee2c98e53f,
    0x3f784c5f7f168b88, 0x3f767a7214a302d7, 0x3f74c82c7677f8d7, 0x3f7333ade00038e9, 0x3f71bb2bd45dff7e, 0x3f705cf2a7db5960,
    0x3f6e2ec7c7320bc9, 0x3f6bd1ed9dfdac69, 0x3f69a06c93f46087, 0x3f67978199fc1da6, 0x3f65b4904895a39e, 0x3f63f51fa73a4119,
    0x3f6256da2c5bd390, 0x3f60d78a84c28bc5, 0x3f5eea3a5fbc170c, 0x3f5c5b3755a418c6, 0x3f59fe5c198efae3, 0x3f57d02e89b3d106,
    0x3f55cd6c59f06151, 0x3f53f304a284ad57, 0x3f523e15ba517513, 0x3f50abee49b8f56e, 0x3f4e7410b45d5e38, 0x3f4bcc0bcd36d6b6,
    0x3f495b61edb437a5, 0x3f471df21805bc4a, 0x3f450fe0747ebfea, 0x3f432d93f4da8117, 0x3f4173b23fb2e756, 0x3f3fbe36c9fb122e,
    0x3f3cd9cfde87dcc4, 0x3f3a34c70a7fb09b, 0x3f37ca174001858e, 0x3f3595175ab8d3df, 0x3f339173ae991d2c, 0x3f31bb2b7428f004,
    0x3f300e875594f4ff, 0x3f2d10320178deb6, 0x3f2a4965205691d1, 0x3f27c2cb5e662675, 0x3f2576f8997f2394, 0x3f2360eceb2a79df,
    0x3f217c0ea5518c23, 0x3f1f883adf6a8257, 0x3f1c6a648fdc077c, 0x3f199769e13ea294, 0x3f1708b1df9e7c26, 0x3f14b82ba78effd7,
    0x3f12a0472efce670, 0x3f10bbea466e4520, 0x3f0e0cd163d130ee, 0x3f0af6f51411a377, 0x3f082e6bc178bf87, 0x3f05ac0d046274c6,
    0x3f03694e8331d775, 0x3f016038f3912fb1, 0x3eff16b4b804190e, 0x3efbcb7839fea391, 0x3ef8d5b2a42a8acf, 0x3ef62d2a65f3399f,
    0x3ef3ca62e9471486, 0x3ef1a69033ff8adf, 0x3eef770a13d25f51, 0x3eec074d1c579563, 0x3ee8f3bfc964d38b, 0x3ee6332ba726e3ad,
    0x3ee3bd3a8eafbeb7, 0x3ee18a5f489ead0f, 0x3edf278e83e71b3f, 0x3edba68ee2dc4719, 0x3ed8869dbef91e9f, 0x3ed5bdadf66d2f51,
    0x3ed342b0f0dd0bbf, 0x3ed10d7c3bfc09c5, 0x3ece2d6d2835868d, 0x3ecaaf868cfe6591, 0x3ec795601a1ccc7c, 0x3ec4d44a39d2c3eb,
    0x3ec262ae433d9b50, 0x3ec037f03dc612ea, 0x3ebc98b1c740f49b, 0x3eb931fbfc2cd59d, 0x3eb62f608260f493, 0x3eb385c982f31b3c,
    0x3eb12b509e1107b4, 0x3eae2e3972427f72, 0x3eaa8290c0ca3f91, 0x3ea7458de5f71f68, 0x3ea46a9f7db5727b, 0x3ea1e6931ac190a0,
    0x3e9f5ee11ac863e2, 0x3e9b78b2af934c74, 0x3e980ad4aa987909, 0x3e950742ae1c02ab, 0x3e92618b38d07700, 0x3e900ea41b6e1ef9,
    0x3e8c0985c7333850, 0x3e8876751bbdf34f, 0x3e8554b978ca1418, 0x3e8296ba4127eaef, 0x3e80307295444ff5, 0x3e7c2e872b997364,
    0x3e788395be60f9b8, 0x3e754f83cee6d072, 0x3e7283b7e76d5038, 0x3e7013543eff2a4f, 0x3e6be6081e22f362, 0x3e68319dc8be47ca,
    0x3e64f7de8ee69fa6, 0x3e622960dd48ed57, 0x3e5f7134ad3fd8a4, 0x3e5b3351e0f211f5, 0x3e578441f9f69bd5, 0x3e5451be26f218c5,
    0x3e518bc63dc166ce, 0x3e4e48af190053f1, 0x3e4a1e637ae115c9, 0x3e46833d16eccc6f, 0x3e4364828c5743d9, 0x3e40b1df63bd8075,
    0x3e3cba244cc67137, 0x3e38b35b32b5cdd2, 0x3e3539bc63160b93, 0x3e323a6db2654733, 0x3e2f4a102ae6d27b, 0x3e2ad6908248a3d5,
    0x3e270193f8c49692, 0x3e23b594f7022b00, 0x3e20dfe5ca990e23, 0x3e1ce0a9c695108d, 0x3e18b1b1e3af8234, 0x3e151a95133775f2,
    0x3e120649070e5397, 0x3e0ec538793688c3, 0x3e0a3fa60aaff74c,
];

/// z-bar of the 1931 2-degree observer, 360 nm to 830 nm.
pub const CIE1931_2_Z_BAR: [u64; 471] = [
    0x3f3fc7ea918e1a50, 0x3f4262107ffac31c, 0x3f453c3844b3f1dc, 0x3f487e612eef00d4, 0x3f4c35d9cc51b734, 0x3f5038b4c653887f,
    0x3f52a0b8ea0e4890, 0x3f555c08d09a47fb, 0x3f5874a61a3082d5, 0x3f5bf5957f13ed84, 0x3f5feaf8422cb175, 0x3f62310eaf8a0a9f,
    0x3f64b4cc0b420ea9, 0x3f6788af88e69065, 0x3f6ab56f51e13803, 0x3f6e448b6ca7957d, 0x3f71202f30ab54be, 0x3f735a16ef27371e,
    0x3f75d61ec1476ebb, 0x3f789af33e8427cb, 0x3f7bafd9bbb76a7f, 0x3f7f1cc0664844a4, 0x3f81752a2395058b, 0x3f83910cb5ce8c1d,
    0x3f85e746a0a34e23, 0x3f887da94e179015, 0x3f8b5ab1d24a901c, 0x3f8e85ab25323e97, 0x3f91036d9dbd3fbc, 0x3f92f3d9ac03539d,
    0x3f95198b974d640c, 0x3f977ad761a63839, 0x3f9a1f202bc47ef5, 0x3f9d0f174a1e872a, 0x3fa02a80064a9cdc, 0x3fa1fe7e75a6cb30,
    0x3fa40ab6bd40e8a8, 0x3fa657a93441502c, 0x3fa8ef5d70738589, 0x3fabdd9ca8c2ac62, 0x3faf302e71019fe8, 0x3fb17b888c810249,
    0x3fb3a25986af063d, 0x3fb6170eba58001c, 0x3fb8e58bb58054fa, 0x3fbc1b1960fa15db, 0x3fbfc65e1dc288a6, 0x3fc1fba6d4eb7f3f,
    0x3fc45f7eeb9869ef, 0x3fc717b451abc43f, 0x3fca2d8a7cc6243c, 0x3fcdaa56803f5580, 0x3fd0cb9bdfc4f715, 0x3fd2fe641e8d89c1,
    0x3fd5715ee7ece3c4, 0x3fd827c10f2968af, 0x3fdb23e39f77292c, 0x3fde670ba7d3ef00, 0x3fe0f8986261f4e8, 0x3fe2e065d11530ea,
    0x3fe4e952dfa0e4e7, 0x3fe710dbf0563ed1, 0x3fe95388a8b08dd2, 0x3febace7bf975a24, 0x3fee179364cc3273, 0x3ff046a098915bdd,
    0x3ff1836976bc1f00, 0x3ff2be4473cd5736, 0x3ff3f30c67168f8e, 0x3ff51d76683c297c, 0x3ff6392f2b66b617, 0x3ff741f85d744f5d,
    0x3ff833c81908e582, 0x3ff90aeb80ecfa6a, 0x3ff9c41fea8112ba, 0x3ffa5cb35f3d7d39, 0x3ffad29888f861a6, 0x3ffb24766c6de764,
    0x3ffb61ac57e23f25, 0x3ffb9a005c4651f4, 0x3ffbcd3cff64cf8d, 0x3ffbfb2fec56d5d0, 0x3ffc23a8e71476b0, 0x3ffc4679cc74b839,
    0x3ffc6379b77c02b0, 0x3ffc7a7fc32ebe59, 0x3ffc8b69552e2fbe, 0x3ffc9616f86a0989, 0x3ffc9a6b50b0f27c, 0x3ffc985058dde7a7,
    0x3ffc8fb224aada34, 0x3ffc8083126e978d, 0x3ffc6ababead4f59, 0x3ffc4e54f7a91969, 0x3ffc2b51bd61f5be, 0x3ffc01b866e43aa8,
    0x3ffbd19695d91ab9, 0x3ffb9afaf8594291, 0x3ffb5dffc5479d4e, 0x3ffb1abf33871609, 0x3ffacc1871e6cd29, 0x3ffa6d0b30b5aa71,
    0x3ff9fe154434e337, 0x3ff97fe8ee6b8306, 0x3ff8f3721d53cddd, 0x3ff859c7bcc2938e, 0x3ff7b42cc2d6a9c5, 0x3ff704039abf3387,
    0x3ff64ac9f2fdb8fe, 0x3ff58a1059ea5721, 0x3ff4c36fc158fb44, 0x3ff3f8811b1d92b8, 0x3ff32ad9274e22a3, 0x3ff25bff04577d95,
    0x3ff18d63cb817332, 0x3ff0c061847f5621, 0x3fefec6045baf534, 0x3fee5fd3dade0788, 0x3fecdd05ca445c50, 0x3feb65940e3f5de4,
    0x3fe9fad1f885b83b, 0x3fe89dc8323358f3, 0x3fe74f3923373cad, 0x3fe60fa3e1f1f800, 0x3fe4df4ae9325e21, 0x3fe3be398c12c85a,
    0x3fe2ac4b4d056c51, 0x3fe1a93293d102bc, 0x3fe0b480049d1db3, 0x3fdf9b53429d3382, 0x3fdde821bce929fb, 0x3fdc4e131de9f5d2,
    0x3fdacbbd02546e16, 0x3fd95fade580f8b9, 0x3fd8087584e75aee, 0x3fd6c4a9e89c362c, 0x3fd592efc6ccd88b, 0x3fd471fc313e666d,
    0x3fd36097f04c2dd6, 0x3fd25da2dde5f9c4, 0x3fd168130ed07d5b, 0x3fd07ef680247d8e, 0x3fcf42e1fcdfba0f, 0x3fcd9d79222acd33,
    0x3fcc0c4ec2dbb243, 0x3fca8e25c810a56a, 0x3fc921e37f96b915, 0x3fc7c689bcacc419, 0x3fc67b36d80361b4, 0x3fc53f2254be9e36,
    0x3fc411962a79504e, 0x3fc2f1edee858439, 0x3fc1df9378ee2867, 0x3fc0d9ffbb36a253, 0x3fbfc164b9bdfc4f, 0x3fbde66a2cc48429,
    0x3fbc2230ac7035f3, 0x3fba73e326ab6574, 0x3fb8dab9498d3cbf, 0x3fb755ec9b9f2d57, 0x3fb5e4c05e7f673e, 0x3fb4867c058a02a3,
    0x3fb33a6adff2c458, 0x3fb1ffdc999e7724, 0x3fb0d62439703923, 0x3faf792f96c68082, 0x3fad652116fbeffb, 0x3fab6ed5cba402d4,
    0x3fa9950beb45b3be, 0x3fa7d689b9fd923d, 0x3fa6321a8465aad5, 0x3fa4a690f8e127ce, 0x3fa332c77d828cb8, 0x3fa1d59ed872c84a,
    0x3fa08e0033569995, 0x3f9eb5b7876b43c6, 0x3f9c7654f0f31cc3, 0x3f9a5bda9c43421f, 0x3f986459f1b8ea6d, 0x3f968df67841db17,
    0x3f94d6e47dc37a3e, 0x3f933d69171aceb8, 0x3f91bfd974500902, 0x3f905c9d8fc85f80, 0x3f8e24584ef68832, 0x3f8bbe1edf134b61,
    0x3f8983bf67b46f33, 0x3f87728c0e969bb8, 0x3f8587f72fcccc4c, 0x3f83c1933b6437c1, 0x3f821d108fa2d35d, 0x3f80983d11f30b6a,
    0x3f7e6207062e9844, 0x3f7bcad674e3a421, 0x3f79672cceaee8fb, 0x3f773382ca865cb7, 0x3f752c84ee3bdd51, 0x3f734f0fcc6a9610,
    0x3f71982ef1964106, 0x3f70051b0321d9ab, 0x3f6d266fbc8c9ef1, 0x3f6a8025f782d04c, 0x3f6812c18147c6c7, 0x3f65d9f5c400ba29,
    0x3f63d1bf2d857ce0, 0x3f61f65c34aba5ad, 0x3f60444d59468fa9, 0x3f5d709d65c5c662, 0x3f5a9eadbbcbaed1, 0x3f580d244d33b1d6,
    0x3f55b6c1d9bad814, 0x3f5396a8d701e28c, 0x3f51a853c6a69805, 0x3f4fcf2b7f68489c, 0x3f4ca11ebeca0f34, 0x3f49bf5c486baec4,
    0x3f47234ae660d02d, 0x3f44c6d4cfcb65e2, 0x3f42a45edadbf81c, 0x3f40b6c01cc5707e, 0x3f3df274cb2fc903, 0x3f3acee49c4fc103,
    0x3f37fad18d93e150, 0x3f356ee6b8675756, 0x3f33246efc0a72b8, 0x3f311545f5483a2d, 0x3f2e77a086aeec78, 0x3f2b25dab6ee89ce,
    0x3f282be3e72342d9, 0x3f2581371b4beb23, 0x3f231e14e8f043f5, 0x3f20fb6dfd921a27, 0x3f1e25b87eea9f4e, 0x3f1abd1c5feff037,
    0x3f17b27ac54fcc37, 0x3f14fc4545377750, 0x3f1291d56374f38b, 0x3f106b57f3cf1d9f, 0x3f0d03777ffd8a04, 0x3f099d3efb7789ec,
    0x3f06988459083478, 0x3f03eae9fe6bed42, 0x3f018b1a8b53a91d, 0x3efee16457f21b17, 0x3efb284d17b5244c, 0x3ef7dd672fd7369d,
    0x3ef4f48e71c52cac, 0x3ef262e30a0a1eda, 0x3ef01ea8840f910f, 0x3eec3e549a7b31cb, 0x3ee8b941d00e05b6, 0x3ee5a0351d22e585,
    0x3ee2e6ca00dd6b89, 0x3ee081f7261a835a, 0x3edccfd12f793c9c, 0x3ed91fc04887beb3, 0x3ed5e431d547b84e, 0x3ed30f59edbab6a8,
    0x3ed094fb82ee83b8, 0x3eccd47a6e312a9b, 0x3ec90b08839c8124, 0x3ec5bca1f4e6a359, 0x3ec2da401ddad359, 0x3ec0569e0d88496c,
    0x3ebc4c0be4d1c12f, 0x3eb87c4b583c3f7b, 0x3eb52bca06c94d91, 0x3eb24a860f3bf0bc, 0x3eaf94ddbef1ed99, 0x3eab3e4c2fba2099,
    0x3ea77ba3d40d52d1, 0x3ea439dc8400d0d7, 0x3ea1684867a7ead3, 0x3e9df09ba1f2e931, 0x3e99ba4eec86a2c9, 0x3e9617584d4b468a,
    0x3e92f439be380c54, 0x3e903ff28029ad29, 0x3e8bd75f0031286b, 0x3e87d511dc046199, 0x3e846285cfe71777, 0x3e816c3247a79aca,
    0x3e7dc23f810cdd92, 0x3e79652ae8bb49c6, 0x3e75a79b684cc8e9, 0x3e727370aabf4d56, 0x3e6f6b05bb5adc9a, 0x3e6aba80b45e6409,
    0x3e66b8aff0a4a6d4, 0x3e634cd85cbe910c, 0x3e6061a50146ace8, 0x3e5bc965ce3e6940, 0x3e578c5568fdd483, 0x3e53f0d7c32ee178,
    0x3e50df7d3933a1c0, 0x3e4c8847f900300b, 0x3e481b068766db20, 0x3e445991f8f52852, 0x3e412a855b79f742, 0x3e3cf041a761849c,
    0x3e385f94c6729888, 0x3e348336fa5c523f, 0x3e313fffd48c12e0, 0x3e2cfd85ee4f82ea, 0x3e28577e3ec9308b, 0x3e246c3ef7389f1a,
    0x3e211f228b0fb5e7, 0x3e1caf96fc0b911d, 0x3e18030d87add11f, 0x3e14158167a0a584, 0x3e10c922222bc0ce, 0x3e0c0950fccc5e73,
    0x3e07655bb69a9466, 0x3e03822b88615fcc, 0x3e004121414f9a22, 0x3dfb10bd1ff02f47, 0x3df6841b2c5ddf6b, 0x3df2b788d20790da,
    0x3def17fb6ec90e24, 0x3de9ceb321758d70, 0x3de567423d3d9488, 0x3de1bcb64c62ae41, 0x3ddd600fb7e365b1, 0x3dd84e553e52b3c7,
    0x3dd41895382fb317, 0x3dd09a39c7ccdcaa, 0x3dcb694733853429, 0x3dc69c6c51a54933, 0x3dc2a314c15f168e, 0x3dbeb3048dcd90ec,
    0x3db943c4c3670580, 0x3db4c6b40c1200b3, 0x3db11267d9e2386d, 0x3dac08d453ee5a84, 0x3da700259a9a8077, 0x3da2db2285539612,
    0x3d9ee4849a373e5a, 0x3d994972bdcde9af, 0x3d94aeb28b0e250c, 0x3d90e73ed3ef33ff, 0x3d8b9badd583a05b, 0x3d86875bf5ffe828,
    0x3d825ea4999213a2, 0x3d7def0e0e943138, 0x3d785ebccbca81d4, 0x3d73d33dd4c8a506, 0x3d701d8b29bc1555, 0x3d6a2df14f2a0483,
    0x3d653f73bf0605e6, 0x3d613b6121866616, 0x3d5bedb6fdb21cb6, 0x3d569d74e2b6107f, 0x3d524c603c27049d, 0x3d4d969e5e31c77b,
    0x3d47e75700968d1b, 0x3d434bd7f01a7179, 0x3d3f213d0a1e9b96, 0x3d391741d5b3f098, 0x3d34353181462ab8, 0x3d304332883e47bd,
    0x3d2a279c41674df0, 0x3d250412d8575032, 0x3d20dfad4c12e5ac, 0x3d1b1336194da201, 0x3d15b482111f27f4, 0x3d11630548cddba1,
    0x3d0bd572677ff407, 0x3d06430315f90f0a, 0x3d01ca9e183503bc, 0x3cfc6a6ee47096a4, 0x3cf6acb89b61d708, 0x3cf2145f976c588d,
    0x3ceccf23c44744cc, 0x3ce6ef796022515e, 0x3ce23ec5f36b6b96, 0x3cdd017f3ca6746c, 0x3cd709e4fc23a26c, 0x3cd248f1bee4b5e4,
    0x3ccd00755e2066df, 0x3cc6fb6f5ba2af9e, 0x3cc232abf5dbda2b, 0x3cbccc0c2e167f58, 0x3cb6c464ff38a1ae, 0x3cb1fc6b02217777,
    0x3cac6559595f51ae, 0x3ca665e98210d3df, 0x3ca1a74e026626a6, 0x3c9bce797dceca83, 0x3c95e1ec991cc14f, 0x3c913510c58320d0,
    0x3c8b0a7defc20bf7, 0x3c853b19373688ce, 0x3c80a800750e393b, 0x3c7a1d5186b5c591, 0x3c7474bf4f16876d, 0x3c7002e3e08b1d8e,
    0x3c690b97a6f8d5e6, 0x3c6392b830b11172, 0x3c5e91cf63345913, 0x3c57da8405a001fe, 0x3c5299440b37ef5a, 0x3c4cfb0466dc15b7,
    0x3c468fb58f33b897, 0x3c418cec586443d9, 0x3c3b48b249057c44, 0x3c3531044f671636, 0x3c30725cdf924e27, 0x3c29824b93063e2b,
    0x3c23c45b0ef1bc3a, 0x3c1e9c88eb22d373, 0x3c17af33ff030f39, 0x3c124f8a3bc55aa9, 0x3c0c4a6806dfd8aa, 0x3c05d68f7251a824,
    0x3c00d823e26671f9, 0x3bf9f6ff5f097224, 0x3bf3ff1763385424, 0x3beec6b62c6a2059, 0x3be7aa525a8c081e, 0x3be22ef17429a81c,
    0x3bdbebc87113a99b, 0x3bd56b910e593420, 0x3bd06b96109518ea, 0x3bc927ca6a0d676b, 0x3bc340fe11ac7dde, 0x3bbd7372ee53706f,
    0x3bb681c54b3f3e74, 0x3bb12fd7dc7c2775, 0x3baa3a7eb16ba449, 0x3ba3ff765c5cc69b, 0x3b9e78a467bff251, 0x3b97326c2c09c223,
    0x3b91a5470ca79b6a, 0x3b8ad329b2b20780, 0x3b845fb4174e6e55, 0x3b7eecaec1d92062, 0x3b77738e7b496b88, 0x3b71c53d7632a2d8,
    0x3b6ae91eefa82470, 0x3b645c3bfe2bd515, 0x3b5ec8f35ee4f40b, 0x3b57417273a45002, 0x3b518de5e1b66496, 0x3b4a7b1c7e56cebb,
    0x3b43f5403a41edaf, 0x3b3e0f7f152cedde, 0x3b369ef67a5d20fd, 0x3b31026abd3bf646, 0x3b298f691e0250e6, 0x3b23309e4c2fabc1,
    0x3b1ccad65d076b9e, 0x3b15954bea019b47, 0x3b102aa7b76ce0e1, 0x3b08333bd98e86f4, 0x3b02194eb8f43fe0, 0x3afb0cff392493d1,
    0x3af433192efe2357, 0x3aee24dd57fa260a, 0x3ae67985fe5ecd4d, 0x3ae0be6422b31b29, 0x3ad8edd210b9ace7, 0x3ad28b24bdfbf177,
    0x3acb90ea7306f587, 0x3ac47938623b284d, 0x3abe63604428f67f, 0x3ab688e34289e272, 0x3ab0b2afc3b43803, 0x3aa8ba1c8c41f248,
    0x3aa24b5085e78f1d, 0x3a9b0c875aab1f50, 0x3a93fb31279e432a,
];

/// x-bar of the 1964 10-degree observer, 360 nm to 830 nm.
pub const CIE1964_10_X_BAR: [u64; 471] = [
    0x3f02a40c0147ab1e, 0x3f077920aec86934, 0x3f0d7751cb9ab7c3, 0x3f126fe3cf881202, 0x3f1700357aa343c3, 0x3f1c9b06d02a84a1,
    0x3f21bbb408a1326c, 0x3f25eb3b0145c0ce, 0x3f2b026f2dfbb4ee, 0x3f30972464dd5109, 0x3f3451aab15dca4f, 0x3f38cf60a42550d7,
    0x3f3e33bba7072bc8, 0x3f4253d7a7f90129, 0x3f462d2a39f839dc, 0x3f4ac0cf6a404d93, 0x3f5016c70ff62198, 0x3f534b2edb12686b,
    0x3f5711653e596837, 0x3f5b7fb50e618f09, 0x3f60578e5c4eb570, 0x3f635dc2fec2be2b, 0x3f66e1fee31f748f, 0x3f6af570154cff73,
    0x3f6fab03d7d978e0, 0x3f728bbedcec7704, 0x3f75a8c1f7fef70e, 0x3f7938d8860ae8df, 0x3f7d494bdf8daadf, 0x3f80f4323042acbd,
    0x3f8392b249bebae6, 0x3f8688422e4dc631, 0x3f89dd740ef088bf, 0x3f8d9b45155de030, 0x3f90e58b34a6fbad, 0x3f933b4f8c5a40e9,
    0x3f95d3eca6b1db04, 0x3f98b47918f091ce, 0x3f9be21838860365, 0x3f9f61f00a13aa2c, 0x3fa19c8ae5a1afe9, 0x3fa3b6419afff61a,
    0x3fa600808373119b, 0x3fa87d8bc6f31912, 0x3fab2f7c9a5a5ec6, 0x3fae1836829dff85, 0x3fb09cae76f65689, 0x3fb24a246666bc4d,
    0x3fb414fe94c5f542, 0x3fb5fd8db4deef64, 0x3fb803ed1f7d9ebc, 0x3fba27fd750b44d8, 0x3fbc696015ea4d10, 0x3fbec77219f8cf8a,
    0x3fc0a0a5269595ff, 0x3fc1ead9fe0db779, 0x3fc341977a04a8dc, 0x3fc4a3f613edf38e, 0x3fc610e8858ff759, 0x3fc787386e059719,
    0x3fc9058b5a3bb5b9, 0x3fca8a6040b277b7, 0x3fcc141489fac025, 0x3fcda0e4e775c57f, 0x3fcf2eefd793d02c, 0x3fd05e1d5728dbc1,
    0x3fd1235a781b9a90, 0x3fd1e61e420a668b, 0x3fd2a550870110a1, 0x3fd35fd7002c75aa, 0x3fd41494771ae990, 0x3fd4c26f10591398,
    0x3fd568518d914d9b, 0x3fd6052dd1ca628f, 0x3fd698003c65e1dc, 0x3fd71fd3041e72b2, 0x3fd79bc126a65cf6, 0x3fd80af73f671e1c,
    0x3fd86cb74ddf86e4, 0x3fd8c05ace82af72, 0x3fd90554683720fe, 0x3fd93b312e763511, 0x3fd9619a4ecb3f2e, 0x3fd9785652f2ec1b,
    0x3fd97f48b57b7770, 0x3fd9767323e40ad7, 0x3fd95df3d11d9465, 0x3fd936072309f044, 0x3fd8ff052e3d2a2d, 0x3fd8b962215d47da,
    0x3fd865a9a8049668, 0x3fd804816f0068dc, 0x3fd796a3b073d0b2, 0x3fd71cdec877d376, 0x3fd69812457ce1d3, 0x3fd6092c640c1913,
    0x3fd571278a88849e, 0x3fd4d1075990950e, 0x3fd429d6931f2c15, 0x3fd37ca3542d7ebe, 0x3fd2ca7dd293b62b, 0x3fd2147496aad1d0,
    0x3fd15b92cdcd7dcd, 0x3fd0a0de9cd8e93b, 0x3fcfcaa9dcddbc08, 0x3fce53d2e5eb81c4, 0x3fccdf0abcf26436, 0x3fcb6e08f2170931,
    0x3fca0266e28d2872, 0x3fc89da23cd64a24, 0x3fc74118cf03deb2, 0x3fc5ee0886b73ec6, 0x3fc4a58c162357f4, 0x3fc3689e4f0b000e,
    0x3fc238187541cb7c, 0x3fc114b599aa6091, 0x3fbffe1b2371f510, 0x3fbdef3ab5de73be, 0x3fbbfd877fbba202, 0x3fba29896645af37,
    0x3fb87397fd374dca, 0x3fb6dbda30e377b4, 0x3fb5624f557db5e3, 0x3fb406d0d49949e9, 0x3fb2c917b6800447, 0x3fb1a8bffd3097cd,
    0x3fb0a54e58a88da8, 0x3faf7c6703c53178, 0x3fade5a12f0f372b, 0x3fac84f6f53f5cb7, 0x3fab5903516e31b7, 0x3faa60582f6bfe56,
    0x3fa9998577a3a58c, 0x3fa9031d15e56f86, 0x3fa89bb9af63b054, 0x3fa86202a97d9252, 0x3fa854af2ed72dfa, 0x3fa8728b37d706e2,
    0x3fa8ba793825356f, 0x3fa92b74cddd4312, 0x3fa9c49419271873, 0x3faa850969b62719, 0x3fab6c24407c1c05, 0x3fac7951a58f1b3b,
    0x3fadac1b7c5d48b0, 0x3faf0429db45b66e, 0x3fb040a0592661e9, 0x3fb1119fe58e0ecc, 0x3fb1f511398e4121, 0x3fb2eafe3b2ed52b,
    0x3fb3f37d3abe41f0, 0x3fb50eaf9b38ab17, 0x3fb63cc1516e879d, 0x3fb77de78c6bb3ad, 0x3fb8d26009aaf993, 0x3fba3a703e567ce4,
    0x3fbbb663d4bbae97, 0x3fbd468d830ae1db, 0x3fbeeb42d99963ea, 0x3fc0526e61dd6aaa, 0x3fc139daed21002b, 0x3fc22c16df3f9618,
    0x3fc329513221bb3c, 0x3fc431b73230d4b4, 0x3fc545762bd647a0, 0x3fc664bc423b0df3, 0x3fc78fb0e28b7af3, 0x3fc8c67dfe32a066,
    0x3fca0947a75e7e3b, 0x3fcb582f6bfe55dc, 0x3fccb351d183ebb2, 0x3fce1ac8d92245a5, 0x3fcf8ea7ce0fc2ec, 0x3fd0877ee4e26d48,
    0x3fd14de997deae77, 0x3fd21a95ad7bcead, 0x3fd2ed80a17b0f6b, 0x3fd3c6a4949f5ed5, 0x3fd4a5f8b80d2227, 0x3fd58b6ec90b772d,
    0x3fd676f529e32859, 0x3fd768760b1f17f3, 0x3fd85fd7002c75aa, 0x3fd95cf8289b29bd, 0x3fda5fb5723d343e, 0x3fdb67e5c267183d,
    0x3fdc755af5efdbc6, 0x3fdd87e175d13d75, 0x3fde9f403727b47a, 0x3fdfbb3991f2056b, 0x3fe06dc4c9c90c4e, 0x3fe0fff3a0762cad,
    0x3fe194021583f5c3, 0x3fe229c66d373b00, 0x3fe2c113c68661ae, 0x3fe359baf1d8f5d0, 0x3fe3f38a05a7dfad, 0x3fe48e4c5e7d63d9,
    0x3fe529cb0a54ed98, 0x3fe5c5cc92eb29af, 0x3fe66215336deb96, 0x3fe6fe66d87c2d78, 0x3fe79a81c135bfd5, 0x3fe8362372cbcf77,
    0x3fe8d10866000f19, 0x3fe96aeac505582f, 0x3fea038377ef24e6, 0x3fea9a8a5a617566, 0x3feb2fb59a812026, 0x3febc2bafb133135,
    0x3fec534f681d1fcb, 0x3fece1272c94b381, 0x3fed6bf6936fb3ed, 0x3fedf3717c441e3d, 0x3fee774c9d678474, 0x3feef73cad2f7894,
    0x3fef72f76e6106ab, 0x3fefea33b030b4d4, 0x3ff02e5471715c64, 0x3ff065093964a59c, 0x3ff099146e4c0df6, 0x3ff0ca558ea7ce10,
    0x3ff0f8ac18f81e8a, 0x3ff123fab10ba626, 0x3ff14c21e1d2178f, 0x3ff17107746887a9, 0x3ff1929131ec0b56, 0x3ff1b0a5efe93187,
    0x3ff1cb30b5aa7158, 0x3ff1e21b7e0ac7da, 0x3ff1f55582129457, 0x3ff204cdfaca361a, 0x3ff210763a190082, 0x3ff21844d013a92a,
    0x3ff21c2e33eff195, 0x3ff21c2e33eff195, 0x3ff2183f91e646f1, 0x3ff210614163779f, 0x3ff204944ed6fda8, 0x3ff1f4dad31fcd25,
    0x3ff1e13e3e29307b, 0x3ff1c9c3ce2089e3, 0x3ff1ae7924af0bf2, 0x3ff18f6be37de93a, 0x3ff16cabc5154867, 0x3ff1464cb5bb3850,
    0x3ff11c62a1b5c7ce, 0x3ff0ef049a9973da, 0x3ff0be4de3b8a19d, 0x3ff08a59c065b63d, 0x3ff05344806290ef, 0x3ff0192fb19e731d,
    0x3fefb87881f1dd28, 0x3fef3919c75162c9, 0x3feeb48ccf86bb71, 0x3fee2b1d854c04bb, 0x3fed9d1a579a1ac9, 0x3fed0ad403f8b305,
    0x3fec749cf56eac86, 0x3febdac90ed22adb, 0x3feb3dadaac89606, 0x3fea9da0c50705ae, 0x3fe9faf965b20b80, 0x3fe9560e298e6ec3,
    0x3fe8af364e70a65b, 0x3fe806c8711d798e, 0x3fe75d1a8d49fffe, 0x3fe6b281923bd747, 0x3fe607512d193dbf, 0x3fe55bdbfe98f7b3,
    0x3fe4b07258e2f025, 0x3fe40562aaf00333, 0x3fe35af98089fe1b, 0x3fe2b180402c3ffa, 0x3fe2093e01c34e9f, 0x3fe1627758fcf158,
    0x3fe0bd6d1328d1b0, 0x3fe01a5d43a7f57d, 0x3fdef30545ba1e74, 0x3fddb6291c58fc1b, 0x3fdc7e8c627971dc, 0x3fdb4c8ffb8b2639,
    0x3fda208cd2e1b9c4, 0x3fd8fad37054fcb2, 0x3fd7dbae111fe2f4, 0x3fd6c35f65c124f9, 0x3fd5b22291fb3fa7, 0x3fd4a82a5614df8b,
    0x3fd3a5a393179f59, 0x3fd2aab331f113d4, 0x3fd1b777d0f1f57b, 0x3fd0cc08164ef6de, 0x3fcfd0ea68bf063b, 0x3fce1991a17d93aa,
    0x3fcc720fe7d49010, 0x3fcada6033467e6a, 0x3fc95274411a7c83, 0x3fc7da32e6dd194b, 0x3fc67178e91fe9aa, 0x3fc51818fb798882,
    0x3fc3cdde44c4552f, 0x3fc2928b885edeb3, 0x3fc165db262be3b4, 0x3fc047819ed110ff, 0x3fbe6e5979eed967, 0x3fbc690c33142983,
    0x3fba7e62dc6e2a80, 0x3fb8ad9d31a99b44, 0x3fb6f5f2e0dda5e3, 0x3fb556973b706e7d, 0x3fb3ceb7b38b075b, 0x3fb25d7e8b4b4d30,
    0x3fb10213559d406d, 0x3faf7737efdb6fa8, 0x3fad127b57ba262c, 0x3faad43c01e3dadb, 0x3fa8bac766b164e7, 0x3fa6c46dadad77c8,
    0x3fa4ef850892f692, 0x3fa33a6a09332f82, 0x3fa1a3804d42530c, 0x3fa029342bd69d86, 0x3f9d93f81a028a9f, 0x3f9b08b027d07e88,
    0x3f98ada7988ad0d4, 0x3f96800dac65fa05, 0x3f947d27c8f1cbe0, 0x3f92a2578349a109, 0x3f90ed15ed7d1b8a, 0x3f8eb5ef3ab5de74,
    0x3f8bd3555216f916, 0x3f892df154ec6b79, 0x3f86c18c26ea4f95, 0x3f848a21ac781895, 0x3f8283e4480afe02, 0x3f80ab379e1e5b01,
    0x3f7df9679babd3bf, 0x3f7aea43a28e8231, 0x3f7822f6b63b770b, 0x3f759dd161b1f6b3, 0x3f73557ea667f7fb, 0x3f71450191d0777c,
    0x3f6ecf626d215a5d, 0x3f6b726ae7bba1bd, 0x3f686b06f0455e14, 0x3f65b1b37469bce6, 0x3f633f7a9445c7b5, 0x3f610deb0b626ff3,
    0x3f5e2e226bff7154, 0x3f5aaadf19df01e1, 0x3f5787f4b42513be, 0x3f54bc1b0a02c96f, 0x3f523ece695174b4, 0x3f500846b51602e9,
    0x3f4c22c93647ee34, 0x3f48a754fbd767b6, 0x3f45925e11025bd0, 0x3f42d925519c7584, 0x3f4071eb266a7d15, 0x3f3ca7b5cef4e94d,
    0x3f38edf1366de323, 0x3f35a8206c9d674d, 0x3f32c94723837c72, 0x3f3045b87cfbd791, 0x3f2c25f2d0390a5a, 0x3f284f496cc52011,
    0x3f24f6a61cdc4515, 0x3f220d0699644f11, 0x3f1f0a10b7f9a51f, 0x3f1aa5875e64ac80, 0x3f16d7474e171513, 0x3f138c8e1124e962,
    0x3f10b4bf4b15385d, 0x3f0c825b264ec3bc, 0x3f0849cd2472bd6d, 0x3f04a906806c05ec, 0x3f018bfca19e6f45, 0x3efdc2316018c83a,
    0x3ef931e6683a8d2b, 0x3ef54c290baf911e, 0x3ef1f97417207a6b, 0x3eee4a99dd5b6d3e, 0x3ee97bc3f21003d5, 0x3ee5677890b1a7d1,
    0x3ee1f2e8fbfff61f, 0x3ede0dc88151737f, 0x3ed91ec97165e227, 0x3ed4f6508e96bbd9, 0x3ed176abd2e6d2f4, 0x3ecd0cb4231cb789,
    0x3ec81efbe7a0fa1a, 0x3ec3fec4015b2b73, 0x3ec08c181277a72e, 0x3ebb576f68788334, 0x3eb68ce77978b9ac, 0x3eb291316c803d8d,
    0x3eae85d234b46b91, 0x3ea90b91f3fbc25b, 0x3ea483e10f296d86, 0x3ea0c67b6209cd39, 0x3e9b62fbfeaee168, 0x3e9650e2adda1ed7,
    0x3e9226f02a764c6b, 0x3e8d7a643c1992c8, 0x3e87e4954ba20bd6, 0x3e8354d2a3a00951, 0x3e7f39a456bc14d3, 0x3e792c4467344238,
    0x3e7441c85deea6dd, 0x3e7045767311a2db, 0x3e6a178a3e23ef9d, 0x3e64e1a53ec808a5, 0x3e60ae385469b05d, 0x3e5a999e7de0019c,
    0x3e552b6eadd863ec, 0x3e50d0f63c3d8ed6, 0x3e4aaa7493c8a28d, 0x3e451a2a1d54b675, 0x3e40aae66a81f557, 0x3e3a478695b3dbdf,
    0x3e34ad5eba841b78, 0x3e303ce5204820b7, 0x3e2974281de1df7e, 0x3e23e93e591f371d, 0x3e1f16f6e646bd99, 0x3e183969a720d232,
    0x3e12d6669c749928, 0x3e0d3d256c93fcdf, 0x3e06a573f8b98913, 0x3e0181417b938bc8, 0x3dfb01beb4f099af, 0x3df4ca79b57fd4cf,
    0x3deff22bc709d52b, 0x3de87e2129d13dfd, 0x3de2bd5534f51cea, 0x3ddc9dbec21df2bc, 0x3dd5cdb848c8d78d, 0x3dd093fb5ce65b10,
    0x3dc9281e2f7f93a8, 0x3dc30c014ded1334, 0x3dbcc7d52b864c9c, 0x3db5b2a4e25af045, 0x3db052ac61391587, 0x3da8818689c8dba4,
    0x3da25b0f04bb48a9, 0x3d9b701d560a56f6, 0x3d9476479b75c8c4, 0x3d8e73bd6e2948ff, 0x3d869c0da29fba3a, 0x3d80bfd87e7c659e,
    0x3d78c2bb1cbad049, 0x3d7242bb5e6da2a6, 0x3d6adf82b2c500c3, 0x3d63ba8f212cb559, 0x3d5ce6bc2be7d3ce, 0x3d551edf480c41cd,
    0x3d4ecc4006f8a9cd, 0x3d4667054af3a2f6, 0x3d4041ed802556b0, 0x3d378a79c2c885d9, 0x3d3100e1301a0f27, 0x3d28813162290b0d,
    0x3d219d8eae70ae18, 0x3d1943f4b8145cf8, 0x3d12133ea4464eb6, 0x3d09ccb7e6c4f57d, 0x3d025e29a5d141ec, 0x3cfa16eb535226f6,
    0x3cf27baba9c817cd, 0x3cea1fb37791a3e8, 0x3ce26a68b5722714,
];

/// y-bar of the 1964 10-degree observer, 360 nm to 830 nm.
pub const CIE1964_10_Y_BAR: [u64; 471] = [
    0x3f1fafa49c21cc3d, 0x3f215e1eb4c51adc, 0x3f2307b0d8b858f1, 0x3f24d77bc80f883a, 0x3f26d0b069e73abc, 0x3f28f6baea9eb034,
    0x3f2b4d499b0fcc8d, 0x3f2dd850602b131d, 0x3f304e075b244f26, 0x3f31ce89fe558cce, 0x3f3370224e74dd41, 0x3f35356e4f529e69,
    0x3f37213d692169a3, 0x3f393690d669931d, 0x3f3b789f8198a485, 0x3f3dead9e290d79f, 0x3f4048768028c911, 0x3f41b762b94ff0c3,
    0x3f43444a0dbe7a3c, 0x3f44f16894674b56, 0x3f46c11fc1fd960c, 0x3f48b5f9a1971403, 0x3f4ad2aa1e8684bd, 0x3f4d1a10f3236aed,
    0x3f4f8f3d186607af, 0x3f511ab707e0ec61, 0x3f52880c17544947, 0x3f541172a1bbafa2, 0x3f55b8dbcb8fad54, 0x3f578055b6fce804,
    0x3f596a10e247d5a4, 0x3f5b785ac96903e9, 0x3f5dada56a324ddb, 0x3f60064318b70ea8, 0x3f614bdb86e014b9, 0x3f62a90d5d943864,
    0x3f641f5d4ea0de18, 0x3f65b0660ed2abb4, 0x3f675dd74314ca09, 0x3f69297942837f9e, 0x3f6b152a673a546d, 0x3f6d22e246f64d69,
    0x3f6f54b2c5f6aafe, 0x3f70d663c6c644eb, 0x3f7216b3d436004b, 0x3f736c7b4ac66f32, 0x3f74d8faad85b4b5, 0x3f765d8187cc5f0b,
    0x3f77fb6eb1f5972d, 0x3f79b430dacf8017, 0x3f7b894823ec548e, 0x3f7d7c43fbe0ea19, 0x3f7f8ec656e6ec89, 0x3f80e1412ba1f7eb,
    0x3f820c9e8db8ff7f, 0x3f834a6723c7fda8, 0x3f849b9069c5159e, 0x3f860118d9c0a623, 0x3f877c0965da4f6c, 0x3f890d73dbefd565,
    0x3f8ab674c6a66d12, 0x3f8c7834c503aaaf, 0x3f8e53e1d470db09, 0x3f90255baf284c24, 0x3f912eff1bff64fb, 0x3f924780f30499ee,
    0x3f936f8fafe0d8c8, 0x3f94a7ddd507d9be, 0x3f95f1229784967d, 0x3f974c1a8ac5c140, 0x3f98b987a09dc4cc, 0x3f9a3a31d50f3b87,
    0x3f9bcee3d34e9c1a, 0x3f9d786e50c08cce, 0x3f9f37a8b8c65a98, 0x3fa086b59146e4c1, 0x3fa17d4b2f5354bc, 0x3fa280064a9cdc44,
    0x3fa38f5aa669b6a8, 0x3fa4abbdb37f48e0, 0x3fa5d5a791d4d42d, 0x3fa70d910d2e10df, 0x3fa853f4f4b41c7d, 0x3fa9a9501af579bf,
    0x3fab0e1ffe4d2273, 0x3fac82e31ec8c2fd, 0x3fae0819a9f53170, 0x3faf9e4377790855, 0x3fb0a2f1313023b4, 0x3fb17fbb770f0023,
    0x3fb265c17adf1956, 0x3fb35543ff335166, 0x3fb44e8345c53122, 0x3fb551bf655b2392, 0x3fb65f381ed55837, 0x3fb7772c5c5469ba,
    0x3fb899da5c2c7bb4, 0x3fb9c77eaf328813, 0x3fbb005814940bbb, 0x3fbc449dbec2480f, 0x3fbd948c139f1935, 0x3fbef058c30fb4a9,
    0x3fc02c1d953c3cc7, 0x3fc0e6347cdf4eb0, 0x3fc1a687bea5c29d, 0x3fc26d315bc29e76, 0x3fc33a4723aafff3, 0x3fc40ddd3854db24,
    0x3fc4e8089275b8ea, 0x3fc5c8d9f90539fc, 0x3fc6b06309ba93e5, 0x3fc79eb1308f1405, 0x3fc893d1d97c07b8, 0x3fc98fcf157c6907,
    0x3fca92b1480c084c, 0x3fcb9c7ffde7210c, 0x3fccad3e920c069e, 0x3fcdc4eddb3a4dda, 0x3fcee38eb0318b93, 0x3fd0048e6f99ebcf,
    0x3fd09ac8d92245a5, 0x3fd1347262f3eb1f, 0x3fd1d185993194ce, 0x3fd271faef1f072c, 0x3fd315c995e0a775, 0x3fd3bce7111bb136,
    0x3fd46747a25600be, 0x3fd514dddd9648ac, 0x3fd5c59a3e04478d, 0x3fd6796c68082716, 0x3fd73041e72b1ce4, 0x3fd7ea06997734eb,
    0x3fd8a6a444178705, 0x3fd966036a17cbcf, 0x3fda280ae1049236, 0x3fdaec9fd0eb3f7f, 0x3fdbb3a4dd9a7a6a, 0x3fdc7cfc3f811f4f,
    0x3fdd48853f6f8198, 0x3fde161de416956e, 0x3fdee5a286a8254e, 0x3fdfb6ee3e369c74, 0x3fe044eccecad3ce, 0x3fe0af1e306caf56,
    0x3fe119f6159b72b8, 0x3fe1855ee491e570, 0x3fe1f1418bbb8a85, 0x3fe25d872f33ca32, 0x3fe2ca17b0f6ad71, 0x3fe336da51f08d9c,
    0x3fe3a3b5b1fe146d, 0x3fe41090059c2133, 0x3fe47d4eaa87fe67, 0x3fe4e9d6c8cf114b, 0x3fe5560ce76f0f82, 0x3fe5c1d4ec55ff10,
    0x3fe62d12bd71e5f6, 0x3fe697a93441502c, 0x3fe7017bcb52794a, 0x3fe76a6d26740810, 0x3fe7d25f7e14d8d5, 0x3fe839357603925c,
    0x3fe89ed17c5ef630, 0x3fe903155e36163d, 0x3fe965e389a7b40f, 0x3fe9c71e3722abfc, 0x3fea26a80a75a4c8, 0x3fea846371bf5ffd,
    0x3feae033467e6992, 0x3feb39fa97e132b5, 0x3feb919ce075f6fd, 0x3febe6fe3bdaa1a2, 0x3fec3a02c5ad1ddb, 0x3fec8a8fa5fad0ec,
    0x3fecd88a04d12019, 0x3fed23d84c5ccfe5, 0x3fed6c611c7a8a0a, 0x3fedb20c2176724d, 0x3fedf4c1a8ac5c14, 0x3fee346b0be794cf,
    0x3fee70f27bb2fec5, 0x3feeaa42ff591113, 0x3feee048aa93bce1, 0x3fef12f09d8c6d61, 0x3fef4229703bd23e, 0x3fef6de1f04a8057,
    0x3fef960b39efe5d7, 0x3fefba96d4c33b54, 0x3fefdb77c02afddb, 0x3feff8a2735ceeee, 0x3ff00906034f3fd9, 0x3ff013d640e9d51b,
    0x3ff01cbccf28c79f, 0x3ff023b8a19c9d5a, 0x3ff028c47a17f413, 0x3ff02be1650a45d4, 0x3ff02d0c3d25247d, 0x3ff02c450268900c,
    0x3ff0298bb4d48883, 0x3ff024e26d4801f7, 0x3ff01e4a38327675, 0x3ff015c52e72da12, 0x3ff00b5675579af2, 0x3feffe04b2ed27b6,
    0x3fefe199780baa58, 0x3fefc175b665823b, 0x3fef9da4f6c4eddb, 0x3fef763398b3c08c, 0x3fef4b30149ac1b8, 0x3fef1ca94e428332,
    0x3feeeaafd6f2c07c, 0x3feeb554e102e4b7, 0x3fee7cab81f969e4, 0x3fee40c7050caf3b, 0x3fee01bc62f23da0, 0x3fedbfa0ffbf6860,
    0x3fed7a8b81a8e20c, 0x3fed32939b52d73d, 0x3fece7d1351159c5, 0x3fec9a5daf07bfe8, 0x3fec4a5269595fee, 0x3febf7ca0648ef5d,
    0x3feba2df5dc908f3, 0x3feb4bae543bc177, 0x3feaf25262a36347, 0x3fea96e879d17d36, 0x3fea398d1f37d3ac, 0x3fe9da5d7957dab2,
    0x3fe97976e462eb88, 0x3fe916f6f23a449f, 0x3fe8b2fb6a6f09a3, 0x3fe84da214925e3c, 0x3fe7e708828580de, 0x3fe77f4c7bd99532,
    0x3fe7168bc81fbee2, 0x3fe6ace3f9393c62, 0x3fe6427235a781ba, 0x3fe5d753a3ec02f3, 0x3fe56ba4ff2869ac, 0x3fe4ff82ccce7a4c,
    0x3fe49308bb906467, 0x3fe42652e58021f9, 0x3fe3b97bece0688b, 0x3fe34c9ea9a3d2d8, 0x3fe2dfd51cfd66c9, 0x3fe27338a7107aa2,
    0x3fe206e206f0b509, 0x3fe19ae99051f23b, 0x3fe12f668a789466, 0x3fe0c47006f91885, 0x3fe05a1b9f98b71c, 0x3fdfe0fd70d986ef,
    0x3fdf0f5b52362db9, 0x3fde3f785073b5da, 0x3fdd717a969f1356, 0x3fdca5856026b145, 0x3fdbdbbb11b965e8, 0x3fdb143c6286ddd5,
    0x3fda4f285c3f9bf7, 0x3fd98c9befb52f21, 0x3fd8ccb2cb99c6e6, 0x3fd80f861a60d456, 0x3fd7552dc45e6942, 0x3fd69dc06fc73838,
    0x3fd5e952a9f0ffb2, 0x3fd537f67bf2bfa6, 0x3fd489bdeee3780a, 0x3fd3deb81c3b9fe9, 0x3fd336f26ff484a2, 0x3fd292797f47debc,
    0x3fd1f15831f03d14, 0x3fd1539756c93a71, 0x3fd0b93e0f2f47ec, 0x3fd022537c7ed6a0, 0x3fcf1db6ca2c089d, 0x3fcdfdb31ea5dd75,
    0x3fcce4a0282913f6, 0x3fcbd27ebd7540f5, 0x3fcac74d310b3ac7, 0x3fc9c30827ecae14, 0x3fc8c5aa999c1dd8, 0x3fc7cf2b4bde24e4,
    0x3fc6df8104775e05, 0x3fc5f69e576e7bdf, 0x3fc51476af89c5e7, 0x3fc438f86f120693, 0x3fc36411f8500856, 0x3fc295b1ad8c95a5,
    0x3fc1cdc0e892fbf1, 0x3fc10c2ab0adb255, 0x3fc050d6b228dc98, 0x3fbf375ae02066a8, 0x3fbdd92677630dec, 0x3fbc86dc27b3a330,
    0x3fbb4046412cf0fa, 0x3fba052a0b6c44cd, 0x3fb8d54bf74f5756, 0x3fb7b071776693de, 0x3fb6965d241d6ba1, 0x3fb586d0bf1fbb06,
    0x3fb4818d89400529, 0x3fb38653ec91384c, 0x3fb294e4283324f0, 0x3fb1acfd7992e8fb, 0x3fb0ce5f9ef6fb9f, 0x3faff19355b2b9fc,
    0x3fae57f5b54e55f9, 0x3faccf65d94db99c, 0x3fab576292715c39, 0x3fa9ef6c5ef8decf, 0x3fa89704130a1de6, 0x3fa74dabda63e42b,
    0x3fa612e6e277aee3, 0x3fa4e63a06362500, 0x3fa3c72bce0f171f, 0x3fa2b5446ff17f8a, 0x3fa1b00dcf4b8234, 0x3fa0b7137d0a6cc0,
    0x3f9f93c7729ad229, 0x3f9dd01d8f320c98, 0x3f9c224dddae716d, 0x3f9a8980f2aeb3b2, 0x3f9904e618ce2d1f, 0x3f9793aff5a68ac4,
    0x3f9635168d35323c, 0x3f94e85741db41b0, 0x3f93acb37cc4a1b0, 0x3f9281735d19e17e, 0x3f9165e308ce5ac1, 0x3f90595404391fb1,
    0x3f8eb63bbbc2e441, 0x3f8cd539adcbaab9, 0x3f8b0e63c5f81c5c, 0x3f896088001421f6, 0x3f87ca7c65813926, 0x3f864b2314013ec4,
    0x3f84e168e61d80c4, 0x3f838c40e2eb9485, 0x3f824aac06eabc07, 0x3f811bb2d2bf6eda, 0x3f7ffccee1e9ae49, 0x3f7de3cae2894403,
    0x3f7beaa2c3057024, 0x3f7a0fb19b3a7af3, 0x3f785163f5c8c47f, 0x3f76ae36bd340620, 0x3f7524b84ec410ef, 0x3f73b385cb52f18c,
    0x3f72594d3d0e6d1a, 0x3f7114cb2cfe549e, 0x3f6fc995460909fb, 0x3f6d904ad52a2d3f, 0x3f6b7b85ffab3dd3, 0x3f69892f82e942be,
    0x3f67b74b7da43d03, 0x3f6603f5247c2d9a, 0x3f646d617122f1b6, 0x3f62f1dad6d948ba, 0x3f618fc2debff1fc, 0x3f60459002162fc2,
    0x3f5e239b54738e87, 0x3f5be6363b8c8444, 0x3f59d052b5a6e2d0, 0x3f57df7853ac5816, 0x3f561152157f20d0, 0x3f5463aa1e770e7f,
    0x3f52d46bdb230470, 0x3f5161a0c8a6bc31, 0x3f50096c972b4af4, 0x3f4d942358b7b697, 0x3f4b43d52d48ac7a, 0x3f491ed640244392,
    0x3f47223d6406064c, 0x3f454b4e16954110, 0x3f4397765aa38543, 0x3f42044c926b2c3d, 0x3f408f8d22d41a93, 0x3f3e6e32533283c0,
    0x3f3bf1e6894cca7d, 0x3f39a67dda55b458, 0x3f37887bc7c9183d, 0x3f35949eaa71fb67, 0x3f33c7d9af1999c0, 0x3f321f54d68765d9,
    0x3f309867602390b0, 0x3f2e612eb8071488, 0x3f2bcb29e2e71051, 0x3f296a70726a10fc, 0x3f273affe748a778, 0x3f25391b5652041f,
    0x3f23614a8c84f7e6, 0x3f21b05253f0ff17, 0x3f202331e00144ea, 0x3f1d6e40738f4e24, 0x3f1ad30e312579d3, 0x3f187001d04eb45b,
    0x3f1640a716b22c8e, 0x3f1440dfdc2d99bf, 0x3f126cdb73cf47b6, 0x3f10c11234581cdd, 0x3f0e748049ad4353, 0x3f0baac162480d22,
    0x3f091f5464cc5477, 0x3f06cd12ef233f71, 0x3f04af3db37d6517, 0x3f02c172d96adab4, 0x3f00ffa87e7b3b79, 0x3efecc4d0de36221,
    0x3efbe3018cddf77f, 0x3ef93d204172f7d3, 0x3ef6d4de34426db4, 0x3ef4a4e80053bdba, 0x3ef2a858342db3df, 0x3ef0dab282628a28,
    0x3eee6fac063ff772, 0x3eeb77f908868b9c, 0x3ee8c75db55a6fd9, 0x3ee65780259c752b, 0x3ee422930bca42fe, 0x3ee223436c78d6f4,
    0x3ee054b52eb889a6, 0x3edd64ed7afa3f9f, 0x3eda70f14abd4586, 0x3ed7c60c0aead5c8, 0x3ed55d7a46caba50, 0x3ed331104530b739,
    0x3ed13b2e36a167fc, 0x3eceed69e067d167, 0x3ecbbdf4336d669d, 0x3ec8df7e3708f1e9, 0x3ec64a4de5bec6b2, 0x3ec3f75f322f088f,
    0x3ec1e050c945c602, 0x3ebffeaff402df49, 0x3ebc9e6820f906a3, 0x3eb9963efc080e4a, 0x3eb6dd8f340f29dd, 0x3eb46c84602c6afc,
    0x3eb23c061bb677e4, 0x3eb045a84d24f328, 0x3ead07382bb6e3d1, 0x3ea9e1414b9d5f2f, 0x3ea70fedd5ff00b3, 0x3ea48aaaba370b9d,
    0x3ea249ba35c60178, 0x3ea04620eaf3040b, 0x3e9cf3249d1551ab, 0x3e99bcc28671500f, 0x3e96dee24af12a32, 0x3e94504daf0d2eca,
    0x3e9208bd479b195a, 0x3e9000bbe374a04d, 0x3e8c63300ffe6e55, 0x3e892a9862a00d34, 0x3e864ce340f19708, 0x3e83c05bc580853a,
    0x3e817c4fa5c46f59, 0x3e7ef1e4565d1f10, 0x3e7b5e88e69b750c, 0x3e78320a26eabfb1, 0x3e756130b1c303a1, 0x3e72e1f5d3f4bb2f,
    0x3e70ab61f2c8c382, 0x3e6d6ae2e8ea7d2a, 0x3e69f1f72fefa5a5, 0x3e66df383b06b6ff, 0x3e64273d62937f57, 0x3e61bfda4db273ed,
    0x3e5f3ffa569ece5c, 0x3e5b7f224832d007, 0x3e582ec95682b880,
];

/// z-bar of the 1964 10-degree observer, 360 nm to 830 nm.
pub const CIE1964_10_Z_BAR: [u64; 471] = [
    0x3ec7754f25efb62b, 0x3ed2218eeae801b1, 0x3edbb46bd5b76f04, 0x3ee4ee0146e0ab3d, 0x3eef473024bccc19, 0x3ef71f96453eb505,
    0x3f00eb018fa5e68b, 0x3f0881a37b113ab2, 0x3f1193381b176524, 0x3f18f79f68a37305, 0x3f2191ab6c328bcc, 0x3f2880539d420cee,
    0x3f30eed7e7f292e6, 0x3f3733e1fa738895, 0x3f3f8692f59e4ecb, 0x3f453dabff6f2dd8, 0x3f4c6497cab09492, 0x3f52d3ee3a6bf2d4,
    0x3f58c772d6f35284, 0x3f602f14c08164ef, 0x3f64fc70a0c95b20, 0x3f6b04ef05ba5cbb, 0x3f7145b9fc18477d, 0x3f75eed20545e512,
    0x3f7baa734a694989, 0x3f8155d3f2051594, 0x3f85961f10bc65cc, 0x3f8ab6924dcae414, 0x3f906dac55ded9c0, 0x3f941633731f0680,
    0x3f986ac2c1861cba, 0x3f9d83225ecf9930, 0x3fa1bc77143393ab, 0x3fa533bfcb06a409, 0x3fa935e10d768b22, 0x3fadd203c35905ab,
    0x3fb18bf10f774155, 0x3fb48bd1afe082e2, 0x3fb7f0d7c3f6ba5c, 0x3fbbc33f85510d39, 0x3fc0059718b5d96b, 0x3fc2684dc7332fd8,
    0x3fc50d943d394673, 0x3fc7f9038c7c7aa5, 0x3fcb2de6c3181825, 0x3fceaf2f2d143541, 0x3fd13fafadd814ff, 0x3fd3503c5875e2db,
    0x3fd589f8a7462a87, 0x3fd7ed4f8eb38c8a, 0x3fda7a56de33269e, 0x3fdd30c81ee82294, 0x3fe007fe66a2cc48, 0x3fe18b7513a85371,
    0x3fe3220f89e0bef2, 0x3fe4cae1049235f8, 0x3fe684c9c90c4dec, 0x3fe84e764fe875a0, 0x3fea26626a58636e, 0x3fec0adab9f559b4,
    0x3fedf9ffd60e94ee, 0x3feff1ca7d6733ec, 0x3ff0f807789a4591, 0x3ff1f93ff25e56cd, 0x3ff2fb5d031055b9, 0x3ff3fd21ff2e48e9,
    0x3ff4fd49d7ba6699, 0x3ff5fa8b4bf8fcd6, 0x3ff6f39d1b2e59b0, 0x3ff7e7381d7dbf48, 0x3ff8d4195cc857f3, 0x3ff9b90539fba451,
    0x3ffa94cdb7ae5797, 0x3ffb66516db0dd83, 0x3ffc2c7da1ec4e72, 0x3ffce6559f6ec5b0, 0x3ffd92ee84ad794a, 0x3ffe3177a7008a69,
    0x3ffec1344806290f, 0x3fff418611fd5886, 0x3fffb1e5c0b99913, 0x400008f42fe82518, 0x4000309fa54c5543, 0x40004fdb09a671ef,
    0x4000669a4df47f99, 0x400074df04ddb552, 0x40007ab6d00b45ae, 0x4000783cf2cf95d5, 0x40006d97b30f8c65, 0x40005af9ebe9c886,
    0x4000409f623076c0, 0x40001ecdd0d8cb08, 0x3fffeba9d1f60179, 0x3fff8c144028e4fc, 0x3fff1f969e3c9689, 0x3ffea6f71a7e3088,
    0x3ffe2305532617c2, 0x3ffd94983d790753, 0x3ffcfc8e25c810a5, 0x3ffc5bc664d3bf2f, 0x3ffbb324851a8694, 0x3ffb038c111ada77,
    0x3ffa4de093532e7b, 0x3ff992ff4ba51a00, 0x3ff8d3c46d82ba5a, 0x3ff81106ee30caa3, 0x3ff74b945308bb90, 0x3ff68434e3369b9d,
    0x3ff5bba8826aa8eb, 0x3ff4f2a5a469d734, 0x3ff429d7342edbb6, 0x3ff361e0c5a8155d, 0x3ff29b5a63f9a49c, 0x3ff1d6cf850df15a,
    0x3ff114c122749f0e, 0x3ff055a7d24180d4, 0x3fef33dbcf9f0f24, 0x3fedc3e780ad398a, 0x3fec5c1e43b7e5b5, 0x3feafd16e1c3d4d7,
    0x3fe9a753968009a6, 0x3fe85b42e7055d37, 0x3fe7194042e62e9e, 0x3fe5e1961d0d5701, 0x3fe4b47d14fe94c6, 0x3fe3921e7b154a14,
    0x3fe27a9486346207, 0x3fe16deb95e5aff3, 0x3fe06c233ec9696b, 0x3fdeea5f196b0b11, 0x3fdd11f3478ad90c, 0x3fdb4ec270527873,
    0x3fd9a079f30b24f7, 0x3fd806b8ec453818, 0x3fd6810fca785eb6, 0x3fd50f047fc1813f, 0x3fd3b011ab232ed9, 0x3fd263aa5ee3bb26,
    0x3fd1293a208d3e42, 0x3fd000276d2c5345, 0x3fcdcfa9f6deef0e, 0x3fcbbf41c9ceeb8b, 0x3fc9cdd1af8a9ca7, 0x3fc7fa11a975afb0,
    0x3fc642bb6672fba0, 0x3fc4a68895655773, 0x3fc32436402ded79, 0x3fc1ba874feaf9de, 0x3fc0684208b90c26, 0x3fbe586bd1e03204,
    0x3fbc0a709c4a4e02, 0x3fb9e44df2d21a14, 0x3fb7e3d120439759, 0x3fb606d938151a43, 0x3fb44b599aa60914, 0x3fb2af58f38c2944,
    0x3fb130f23b46521f, 0x3faf9ca9c45f150e, 0x3fad0b889f4b5f4f, 0x3faaab31c7784f1c, 0x3fa8787deb125d25, 0x3fa6706da64baeaa,
    0x3fa4902881a962e5, 0x3fa2d4fd47e9ce90, 0x3fa13c5facb8db28, 0x3f9f87cfed9396cb, 0x3f9cd2a1f8e3ac0c, 0x3f9a54f0f31cc2ae,
    0x3f980aba183f3c00, 0x3f95f0370a2d5579, 0x3f9401e07fdd04fe, 0x3f923c6637c26413, 0x3f909cb1a7018c1c, 0x3f8e3fbd2f4af140,
    0x3f8b8674f9a7206b, 0x3f890884decc7e9e, 0x3f86c13fa5dd49c8, 0x3f84ac4ca49e5a74, 0x3f82c5a21c5b3ba1, 0x3f810980203aa1d6,
    0x3f7ee8dbcc191db3, 0x3f7c066801a4a36c, 0x3f7965b182100781, 0x3f770138a06bac07, 0x3f74d3e9544a8da0, 0x3f72d9143f0d6d37,
    0x3f710c67b12df9a7, 0x3f6ed3d384d56fe7, 0x3f6bdbe33794b92c, 0x3f692a44327025e9, 0x3f66b8c7c35ecb23, 0x3f6481c09b216a44,
    0x3f627ffa363c7d09, 0x3f60aeb045f2416a, 0x3f5e1306d415d28b, 0x3f5b18e8b7c28224, 0x3f5867b488f7fa92, 0x3f55f8bbcf34c23b,
    0x3f53c5e32c3d5350, 0x3f51c998b235693b, 0x3f4ffd8ea71b6414, 0x3f4cc199285fb987, 0x3f49d6e0f7d20922, 0x3f4735b7a20c3ca1,
    0x3f44d71fa789481d, 0x3f42b4be5041bdb9, 0x3f40c8ccda5b2232, 0x3f3e1c1a30e6795d, 0x3f3aff784247526e, 0x3f3833114a364c46,
    0x3f35af1064ac45fc, 0x3f336c5da8251855, 0x3f31648badb92f63, 0x3f2f2392c9743c63, 0x3f2bdda7cc9e64ec, 0x3f28edd092241073,
    0x3f264b73805c2f21, 0x3f23eeca4d968bc8, 0x3f21d0d1adf6e28f, 0x3f1fd6696b99fb15, 0x3f1c70759f439b99, 0x3f19657d1685f046,
    0x3f16ac361fbdddb6, 0x3f143c42be7b0151, 0x3f120e1a8204d010, 0x3f101af58fbcb394, 0x3f0cb9737a8848c5, 0x3f099bd52c9b802b,
    0x3f06d3326ce6bf86, 0x3f0456adc5785533, 0x3f021e4ff6314ffc, 0x3f0022f2ff279c33, 0x3efcbc56e6744657, 0x3ef9946de41dc71c,
    0x3ef6c3d6a3fa1172, 0x3ef4414da3b2015b, 0x3ef20486c4cd1b74, 0x3ef006106ff9b4fb, 0x3eec7e84ce021762, 0x3ee9544ccedecc89,
    0x3ee682c879b05ffa, 0x3ee4006dedb9a901, 0x3ee1c4b073da85e3, 0x3edf8fd9ae64bb1e, 0x3edc069e903087b0, 0x3ed8e17b49f2fc0a,
    0x3ed61589928cd31e, 0x3ed3990d5ef529dc, 0x3ed1635618ecdd22, 0x3eced9449e06fbab, 0x3ecb5c0bbbdbb655, 0x3ec842aa18ff7272,
    0x3ec5821da914ab18, 0x3ec310957d0c33d0, 0x3ec0e552f9d89688, 0x3ebdf1161e42e301, 0x3eba8699daad9b39, 0x3eb77ed291028170,
    0x3eb4cec067d740df, 0x3eb26c952fcca940, 0x3eb04f9bdeaa55f1, 0x3eace022d5b8a9e0, 0x3ea98e20b007ce2a, 0x3ea69ced50050b0d,
    0x3ea401a0d46d9894, 0x3ea1b28a8569cba2, 0x3e9f4e1a698613fa, 0x3e9baf05bfabba5d, 0x3e987a3ee0abe452, 0x3e95a3b57d9c6f9d,
    0x3e9320b21620b785, 0x3e90e7b2c936927a, 0x3e8de08e89aa78ed, 0x3e8a65e4da6f7d1c, 0x3e875220d41b6d99, 0x3e84997b29b466a7,
    0x3e82318015b98e7d, 0x3e8010eece7a4cb4, 0x3e7c5f221f9da8c0, 0x3e790c435ec92217, 0x3e761c5c00f5777a, 0x3e738401c9338790,
    0x3e7139177fb8460f, 0x3e6e6551c2f74c2d, 0x3e6ad18ff0427a04, 0x3e67a8df71eab17f, 0x3e64ded39d1fea30, 0x3e62686db1f16765,
    0x3e603bf356cef7ee, 0x3e5ca191e5a9e20b, 0x3e593ea406a2f205, 0x3e5641a4ff0238a3, 0x3e539eae8b77f909, 0x3e514b398c8db1bc,
    0x3e4e7beea5759a7f, 0x3e4add5e46acf7d4, 0x3e47ac3a4ba68c5a, 0x3e44dba8af323d0a, 0x3e426053036e85c9, 0x3e403032ef3e4f04,
    0x3e3c84dd25ff9b48, 0x3e391e6992780763, 0x3e361f3d80dcc867, 0x3e337b295add4cb0, 0x3e31276ae4ead15c, 0x3e2e35069b4708b7,
    0x3e2a98237c531c6d, 0x3e2769620638964b, 0x3e249bb63d8e4895, 0x3e22239d1751bfa7, 0x3e1fedddbf256f6f, 0x3e1c196e828ae893,
    0x3e18ba203d5110d9, 0x3e15c20535ddfb44, 0x3e1324d5e8fbd725, 0x3e10d7beb5f318f5, 0x3e0da266cae1d41d, 0x3e0a11955dba40fe,
    0x3e06ee350ee631f7, 0x3e042b345ea84a3e, 0x3e01bd0fb1e09937, 0x3dff33439d74684a, 0x3dfb6ff54edfc22a, 0x3df82074d8ae889d,
    0x3df536e40adb1480, 0x3df2a70b98b40a8d, 0x3df066298eb9665f, 0x3decd587ac35459b, 0x3de959085aaef849, 0x3de64823c0d57ce5,
    0x3de395ebb95a84e1, 0x3de136fd8971d4d6, 0x3dde42ab7c5f97f1, 0x3dda984479798438, 0x3dd75f3fe223fc36, 0x3dd489f4efff8091,
    0x3dd20c5ef5312a4b, 0x3dcfb7d4c2a0c2bd, 0x3dcbde92523e47c5, 0x3dc87c97ba983ee5, 0x3dc5837dcbc9ba6d, 0x3dc2e699921b2a9d,
    0x3dc09ac5eeb7abd1, 0x3dbd2c6dd5639caf, 0x3db9a09a1410bc9a, 0x3db682e904c34754, 0x3db3c606ba26461e, 0x3db15e3948de0bd2,
    0x3dae8265533b50b1, 0x3daacbc6a7680c99, 0x3da788a9897ab190, 0x3da4ab0c19ad9848, 0x3da2269e1cbc97e6, 0x3d9fe11b11d6b592,
    0x3d9bfeaf5f464f9b, 0x3d9895409f657183, 0x3d95961d6a29b369, 0x3d92f45c08be50a8, 0x3d90a4a3683429ab, 0x3d8d39f55a96fa48,
    0x3d89a93dab88d436, 0x3d8687bb13b3aa0d, 0x3d83c7e50ba2fcb8, 0x3d815dd904046cd1, 0x3d7e7e4d07ffb8f0, 0x3d7ac5421699c59a,
    0x3d778072e57cb935, 0x3d74a1b6aba505dd, 0x3d721c9f58dac962, 0x3d6fcc7d5745ee5f, 0x3d6be9fc5f3af275, 0x3d6880e066f8b1f0,
    0x3d65825bc7551ba4, 0x3d62e16f2b75790c, 0x3d6092afb061abf5, 0x3d5d182e53c93f36, 0x3d5989af43ad7ce3, 0x3d566a6b84972d48,
    0x3d53accfb8ade60e, 0x3d5144f05277f183, 0x3d4e50a9181926b9, 0x3d4a9b98df6396c4, 0x3d475a8a107b0632, 0x3d447f52f63d9ca0,
    0x3d41fd80e3dc036a, 0x3d3f945255a11d42, 0x3d3bb766d99234ec, 0x3d38536ae7a0dff2, 0x3d355995c7deb548, 0x3d32bcee2435e29a,
    0x3d30720f5f49110d, 0x3d2cddf457f01407, 0x3d2955ce58b465ea, 0x3d263c43bb934f5e, 0x3d2383ce6acefd1f, 0x3d21208e01f5d86b,
    0x3d1e102d78c7b1cc, 0x3d1a6285f1cae7ac, 0x3d17281549059d18, 0x3d1452c4c95f91cb, 0x3d11d634c613073f, 0x3d0f4f106e4ed992,
    0x3d0b7a726150e0d9, 0x3d081dd352c7cb6b, 0x3d052a82a22e4f0e, 0x3d02939f5c66886b, 0x3d004dd9a97599b5, 0x3cfc9e88a04d33de,
    0x3cf91e520ef47b52, 0x3cf60bc55e7d85c3, 0x3cf35976bdd0dde7, 0x3cf0fb9ea63cee3c, 0x3cedcfcec621ec45, 0x3cea2a7c47d381cf,
    0x3ce6f75a6a932346, 0x3ce4286f65f43fcb, 0x3ce1b17808869002, 0x3cdf0f6075ea7112, 0x3cdb434c46766424, 0x3cd7ee1f489c6588,
    0x3cd5014de65a36bd, 0x3cd27011e28e8aa5, 0x3cd02f373a59ca44, 0x3ccc69cf37a2b1a1, 0x3cc8f1039278fc19, 0x3cc5e4e546e2231b,
    0x3cc338287323125e, 0x3cc0df2231a7139d, 0x3cbd9f29c685e618, 0x3cba01080f804fb1, 0x3cb6d41925c57e13, 0x3cb40a83f4b891c8,
    0x3cb19822ceb2932b, 0x3caee4967595a8fc, 0x3cab1f4413a8b507, 0x3ca7cfdfc87f8ac4, 0x3ca4e7fe93ae7d0b, 0x3ca25af9dbe1cf95,
    0x3ca01db5d1f8984b, 0x3c9c4ce46f854c44, 0x3c98d943e731a3fc, 0x3c95d184867d051f, 0x3c93287782a8047c, 0x3c90d28afd6c7920,
    0x3c8d8b2eca9c5c64, 0x3c89f16561f9fc9a, 0x3c86c8134c477dc7, 0x3c84017cd46cc34d, 0x3c819193707f61d9, 0x3c7edb83ffddd478,
    0x3c7b197be5f33a8f, 0x3c77ccbf3f64ad59, 0x3c74e6fe3f3027c5, 0x3c725ba6e2ec921b, 0x3c701fb0d03f3fd3, 0x3c6c52d8700faadf,
    0x3c68e0b3955eccbc, 0x3c65da042372fc18, 0x3c6331aee156af36, 0x3c60dc32dd8e0398, 0x3c5d9eec19f3aba8, 0x3c5a0534c03ff952,
    0x3c56dbad3f2f0c22, 0x3c5414a9bfa66987, 0x3c51a4292ac0f504, 0x3c4eff425be7e682, 0x3c4b3ba2657bf891, 0x3c47ed31ed94d53d,
    0x3c4505ab947f5e4b, 0x3c42788777c25870, 0x3c403ac600c744c4,
];

} // verus!
