//! Constant tables: the lattice permutation, and the unit offsets of the
//! cellular feature points.
use vstd::prelude::*;

verus! {

/// A permutation of the byte values, written out twice so that the sum of a
/// byte and a table entry always indexes inside the table.
pub const PERM: [u8; 512] = [
    151, 160, 137, 91, 90, 15, 131, 13, 201, 95, 96, 53, 194, 233, 7, 225,
    140, 36, 103, 30, 69, 142, 8, 99, 37, 240, 21, 10, 23, 190, 6, 148,
    247, 120, 234, 75, 0, 26, 197, 62, 94, 252, 219, 203, 117, 35, 11, 32,
    57, 177, 33, 88, 237, 149, 56, 87, 174, 20, 125, 136, 171, 168, 68, 175,
    74, 165, 71, 134, 139, 48, 27, 166, 77, 146, 158, 231, 83, 111, 229, 122,
    60, 211, 133, 230, 220, 105, 92, 41, 55, 46, 245, 40, 244, 102, 143, 54,
    65, 25, 63, 161, 1, 216, 80, 73, 209, 76, 132, 187, 208, 89, 18, 169,
    200, 196, 135, 130, 116, 188, 159, 86, 164, 100, 109, 198, 173, 186, 3, 64,
    52, 217, 226, 250, 124, 123, 5, 202, 38, 147, 118, 126, 255, 82, 85, 212,
    207, 206, 59, 227, 47, 16, 58, 17, 182, 189, 28, 42, 223, 183, 170, 213,
    119, 248, 152, 2, 44, 154, 163, 70, 221, 153, 101, 155, 167, 43, 172, 9,
    129, 22, 39, 253, 19, 98, 108, 110, 79, 113, 224, 232, 178, 185, 112, 104,
    218, 246, 97, 228, 251, 34, 242, 193, 238, 210, 144, 12, 191, 179, 162, 241,
    81, 51, 145, 235, 249, 14, 239, 107, 49, 192, 214, 31, 181, 199, 106, 157,
    184, 84, 204, 176, 115, 121, 50, 45, 127, 4, 150, 254, 138, 236, 205, 93,
    222, 114, 67, 29, 24, 72, 243, 141, 128, 195, 78, 66, 215, 61, 156, 180,
    151, 160, 137, 91, 90, 15, 131, 13, 201, 95, 96, 53, 194, 233, 7, 225,
    140, 36, 103, 30, 69, 142, 8, 99, 37, 240, 21, 10, 23, 190, 6, 148,
    247, 120, 234, 75, 0, 26, 197, 62, 94, 252, 219, 203, 117, 35, 11, 32,
    57, 177, 33, 88, 237, 149, 56, 87, 174, 20, 125, 136, 171, 168, 68, 175,
    74, 165, 71, 134, 139, 48, 27, 166, 77, 146, 158, 231, 83, 111, 229, 122,
    60, 211, 133, 230, 220, 105, 92, 41, 55, 46, 245, 40, 244, 102, 143, 54,
    65, 25, 63, 161, 1, 216, 80, 73, 209, 76, 132, 187, 208, 89, 18, 169,
    200, 196, 135, 130, 116, 188, 159, 86, 164, 100, 109, 198, 173, 186, 3, 64,
    52, 217, 226, 250, 124, 123, 5, 202, 38, 147, 118, 126, 255, 82, 85, 212,
    207, 206, 59, 227, 47, 16, 58, 17, 182, 189, 28, 42, 223, 183, 170, 213,
    119, 248, 152, 2, 44, 154, 163, 70, 221, 153, 101, 155, 167, 43, 172, 9,
    129, 22, 39, 253, 19, 98, 108, 110, 79, 113, 224, 232, 178, 185, 112, 104,
    218, 246, 97, 228, 251, 34, 242, 193, 238, 210, 144, 12, 191, 179, 162, 241,
    81, 51, 145, 235, 249, 14, 239, 107, 49, 192, 214, 31, 181, 199, 106, 157,
    184, 84, 204, 176, 115, 121, 50, 45, 127, 4, 150, 254, 138, 236, 205, 93,
    222, 114, 67, 29, 24, 72, 243, 141, 128, 195, 78, 66, 215, 61, 156, 180,
];

/// First components of 256 unit vectors in the plane, as binary32
/// encodings. The vectors are spread evenly around the circle; entry `h` is
/// the one at step `PERM[h]`.
pub const CELL_2D_X: [i32; 256] = [
    -1084844571, -1087190839, -1082584424, -1088424245, -1088748858, 1064153747,
    -1082192296, 1064440658, 1047304831, -1087190839, -1086899677, 1048739264,
    1031482228, 1062859370, 1065069773, 1060867899, -1082913827, 1059059403,
    -1085073335, 1060867899, -1106653306, -1083181709, 1064989442, -1086070272,
    1058734790, 1064153747, 1063071059, 1064799173, 1062639077, -1122581716,
    1065140169, -1084209631, 1064989442, -1082413875, 1063071059, -1097950686,
    1065351953, 1061927928, 1040830342, 1024901932, -1087489058, 1065291352,
    1059059403, 1049532962, -1082684475, 1059377701, 1064689350, 1060292809,
    1042459574, -1095605265, 1059994590, -1089416243, 1063653256, -1084412589,
    1044082383, -1089758613, -1093323199, 1063274017, -1082162005, -1082494206,
    -1091116853, -1089758613, -1109279698, -1094076077, -1098744384, -1088748858,
    -1103401265, -1082343479, -1082794298, 1052646730, 1061674597, -1089079591,
    -1096380654, -1083830392, -1086615749, 1062410313, -1091843141, -1083487476,
    1061927928, -1082283060, 1034925696, 1055640507, -1082283060, 1062173215,
    1059377701, -1084624278, -1088105947, 1057377154, 1045697793, 1054160449,
    1064799173, 1057725035, 1064689350, -1085310433, -1083329901, 1047304831,
    -1122581716, 1062173215, 1011420816, -1087489058, 1065341847, 1058067405,
    -1094076077, -1100178817, 1054160449, -1097162618, -1082232656, -1109279698,
    1053407571, -1089079591, 1063653256, -1090106494, 1045697793, 1038203950,
    -1082413875, -1082162005, -1082794298, -1112557952, -1086899677, -1090106494,
    -1088424245, -1085809051, -1083830392, 1042459574, -1092578737, -1106653306,
    1065291352, -1136062832, 1049532962, 1058404057, 1061144423, 1065200588,
    -1082192296, -1082232656, 1065200588, 1048739264, 1058404057, -1084015526,
    -1082584424, -1082141801, 1065351953, -1092578737, -1090459676, 1056366795,
    1052646730, 1051878383, 1038203950, 1061413376, 1053407571, 1063996172,
    1040830342, 1063829308, -1100178817, -1116001420, 1061413376, 1057023972,
    1060292809, -1101785855, -1090459676, 1057023972, -1082494206, 1065069773,
    -1085073335, 1065321643, 1055640507, -1085555720, -1088105947, -1105024074,
    1059689493, -1085310433, -1085555720, -1085809051, -1089416243, 1056366795,
    -1091843141, 1064899224, -1082141801, 1062859370, 1058067405, 1065321643,
    1063468122, -1086339225, -1084015526, -1083654340, -1094836918, -1083181709,
    1060583971, 1062639077, -1096380654, -1105024074, -1083329901, -1084844571,
    1058734790, 1064899224, -1086615749, 1061674597, 1065250992, 1059689493,
    1064440658, 1024901932, 1063829308, 1054904911, -1083487476, 1064569821,
    -1136062832, -1097162618, -1087794155, 1064301939, -1093323199, 1050321030,
    -1083654340, 1063274017, 1065140169, 1064301939, 1063996172, -1084209631,
    1051878383, 1011420816, 1057377154, 1060583971, -1098744384, 1044082383,
    -1084412589, -1086339225, -1103401265, -1091116853, 1050321030, -1094836918,
    -1082913827, -1082343479, 1051102994, 1054904911, -1082131695, 1065250992,
    -1084624278, 1065341847, -1082684475, 1063468122, 1051102994, -1087794155,
    1059994590, -1083042990, -1112557952, 1061144423, 1062410313, -1101785855,
    1064569821, -1083042990, -1082131695, 1034925696, -1095605265, -1116001420,
    1057725035, 1031482228, -1086070272, -1097950686,
];

/// Second components of the unit vectors of `CELL_2D_X`.
pub const CELL_2D_Y: [i32; 256] = [
    -1089758613, -1086899677, -1100178817, 1061674597, 1061927928, 1052646730,
    -1112557952, 1051102994, -1082584424, 1060583971, 1060292809, 1064799173,
    -1082162005, -1090106494, 1044082383, -1087489058, -1097162618, 1061674597,
    1058067405, 1059994590, 1065200588, -1095605265, 1045697793, 1059377701,
    1061927928, -1094836918, 1057023972, 1048739264, 1057725035, -1082141801,
    1042459574, -1091116853, -1101785855, 1044082383, -1090459676, 1064689350,
    1011420816, 1058734790, -1082283060, 1065341847, 1060867899, -1112557952,
    -1085809051, -1082794298, 1048739264, 1061413376, 1049532962, 1060583971,
    1065140169, -1083181709, 1060867899, 1062410313, -1092578737, -1090459676,
    1065069773, 1062639077, -1083654340, 1056366795, 1031482228, -1101785855,
    -1084209631, -1084844571, 1065250992, -1083487476, 1064799173, -1085555720,
    1065069773, -1105024074, -1097950686, 1064153747, 1059059403, -1085310433,
    1064440658, -1092578737, -1087489058, -1089416243, 1063468122, 1053407571,
    -1088748858, 1040830342, 1065291352, -1084015526, -1106653306, -1089079591,
    -1086070272, 1057377154, 1061413376, 1062859370, 1064989442, 1063829308,
    -1098744384, 1062639077, -1097950686, 1058404057, -1094836918, 1064899224,
    1065341847, 1058404057, 1065351953, -1086615749, 1024901932, -1085073335,
    1063996172, 1064899224, -1083654340, 1064569821, -1109279698, -1082232656,
    -1083487476, 1062173215, 1054904911, -1084624278, -1082494206, -1082232656,
    -1103401265, -1116001420, 1049532962, -1082192296, -1087190839, 1062859370,
    -1085809051, 1059059403, 1054904911, -1082343479, -1083830392, -1082283060,
    1034925696, 1065351953, 1064689350, -1085310433, -1087794155, -1106653306,
    1034925696, 1038203950, 1040830342, -1082684475, 1062173215, -1091843141,
    1047304831, 1024901932, -1136062832, 1063653256, 1063071059, -1084209631,
    -1083329901, -1083181709, 1065250992, -1088105947, 1063996172, 1053407571,
    1065200588, 1054160449, -1082584424, -1082162005, 1059377701, 1063071059,
    -1086899677, -1082494206, -1084412589, -1084412589, 1045697793, -1103401265,
    -1089416243, 1031482228, 1063468122, -1088748858, -1086070272, 1065140169,
    -1086339225, -1089079591, 1058734790, -1088424245, -1085073335, 1063274017,
    -1084015526, 1047304831, -1122581716, 1057377154, 1062410313, -1116001420,
    1055640507, 1059689493, 1055640507, 1054160449, 1064153747, 1051878383,
    -1087190839, -1089758613, -1083042990, -1082343479, 1052646730, 1057725035,
    -1085555720, -1100178817, 1059994590, -1088424245, -1109279698, 1061144423,
    -1096380654, -1082141801, -1093323199, -1083830392, -1094076077, 1050321030,
    -1082131695, -1082913827, -1086339225, -1095605265, 1063829308, 1064569821,
    -1093323199, -1091116853, -1105024074, 1051878383, -1094076077, 1056366795,
    1064301939, -1082131695, -1084624278, 1060292809, -1082684475, -1082413875,
    1057023972, -1087794155, -1082413875, 1063274017, -1082913827, -1083329901,
    1050321030, 1042459574, 1064440658, 1063653256, 1011420816, 1038203950,
    -1090106494, -1122581716, -1098744384, -1091843141, -1083042990, 1061144423,
    -1086615749, 1051102994, 1065291352, 1059689493, 1058067405, 1064989442,
    -1097162618, -1096380654, -1136062832, -1082192296, 1064301939, 1065321643,
    -1084844571, 1065321643, -1088105947, -1082794298,
];

/// First components of 256 unit vectors in space, as binary32 encodings.
/// The vectors are spread over the sphere along a golden-angle spiral; entry
/// `h` is the one at step `PERM[h]`.
pub const CELL_3D_X: [i32; 256] = [
    -1092667703, 1060777858, -1091296952, 1029413171, -1087427415, -1116007282,
    1064882392, 1054836564, 1040450997, -1100821243, -1091402768, 1022542810,
    1060098616, 1058075769, -1105252636, 1058740796, -1082412246, 996118567,
    -1089866951, -1088396598, -1089713107, 1032474477, 1051481480, 1053110076,
    1056130623, -1100589460, 1057799689, 1043081104, 1040304541, -1085801863,
    -1113111120, -1082659540, -1102092776, 1057184936, -1093723787, -1089716793,
    1035261868, 1057855192, 1013516339, -1095332788, 1061957288, -1140725241,
    -1093570868, -1085766549, -1094990231, -1091546316, 1040050875, 1038546927,
    1038889772, -1086862372, -1089960866, -1086806003, -1090334676, 1062701291,
    -1088180020, 1038539742, -1083718089, -1095626192, -1126523515, 1064409465,
    -1094547508, 1055471037, 1063227900, 1057255927, -1112228955, 1064429046,
    1059576845, 1053796020, 1062496942, -1093999487, -1099640024, -1085597850,
    -1085819962, 1037600272, -1089278207, 1030725837, -1098173704, -1085557596,
    -1088864380, -1085338060, 1060978556, -1088382921, 1050842633, 1052222356,
    1059931263, 1061534632, 1058782391, -1094123297, 1062384505, -1087217191,
    -1095701124, -1106918202, 1040438426, 1064514003, -1086849525, -1089266485,
    1053936794, -1089334201, 1061916533, -1082719069, -1108966611, -1086791868,
    -1084326568, 1059869114, 1052779635, 1063673739, -1084239510, -1085562053,
    -1086529467, 1064568342, 1052504233, -1083884511, -1088078954, 1057971082,
    -1083553985, -1089530001, -1095374181, 1051005355, -1109875961, 1057830086,
    -1088847497, 1050977386, -1087874135, -1089275163, 1062312075, 1062888120,
    1041281911, -1085176324, 1057357331, 1057653442, -1097649910, -1097579845,
    -1087913152, 1065233568, 1048218727, 1055220030, -1086964668, 1058406081,
    1063624389, 1060234209, -1114427248, -1093726690, -1083418929, 1061044127,
    1060578106, -1096770206, -1085095957, -1104234398, 1061040983, 1052788153,
    1056167396, -1090447029, -1083822176, 1050748940, -1101396566, 1060617408,
    1049900268, 1060794501, 1063068950, -1091529575, -1082863157, -1119745244,
    1063930659, 1015864159, 1049027873, 1054678675, -1115604677, -1114755931,
    -1089064119, -1083591051, -1084453584, 1049383206, 1047021537, -1087695962,
    -1097227753, -1095570400, -1105764414, -1091699193, 1058231074, -1107106788,
    -1127693765, -1084021341, -1133709179, 1065109004, 1054230140, 1057316051,
    -1088669230, -1092851492, 1063961565, -1091827773, 1044360641, -1105146276,
    -1113011742, 1052543337, 1064050090, 1057409309, 1044150051, 1059994813,
    -1093502010, -1104681911, 1054366320, 1043663231, 1065210073, -1094783109,
    1062577633, -1088259423, 1060248259, 1054821751, 1063081936, -1085559735,
    -1086436099, 1026009307, 1048106176, -1098374546, -1107730158, 1059940065,
    -1104555936, -1092156734, -1120939501, 1052109975, 1058594293, 1062457052,
    -1082412728, 1064586150, -1103753028, 1062150042, 1060406504, 1041121592,
    1063504784, 1045230277, 1059461560, 1049860414, -1082161603, -1098612151,
    -1098100228, 1041966797, -1099585404, 1051188507, -1098561610, -1082917396,
    1044823874, -1082861111, -1086510852, 1058059994, 1050002902, -1083790276,
    1043741727, 1058983385, 1061613103, -1084730578, 1048447419, 1046522607,
    1057359194, -1098449105, -1084918916, 1018574686,
];

/// Second components of the unit vectors of `CELL_3D_X`.
pub const CELL_3D_Y: [i32; 256] = [
    -1084126283, 1059273822, 1063270559, -1082852180, 1059779573, -1091423689,
    1047478636, -1111191154, -1085343496, 1064372227, -1084720417, 1062209606,
    1057104225, -1142962818, -1097252946, -1100277971, 1042146605, -1087175745,
    1062339305, 1042881501, 1060329365, 1065206669, 1039908507, -1083881947,
    1057363542, -1093182390, 1033338451, -1095241425, -1089455412, -1094241829,
    1050382243, -1102876031, 1050106182, -1084541200, 1052925308, -1086674449,
    0, -1098721812, 1062662695, -1085793232, -1089789754, 1047375696,
    -1089392174, -1102504906, -1083360258, 1057088612, 1053450685, 1059585553,
    -1085038881, -1089197275, -1093438474, -1088504750, -1112793180, -1090304757,
    1057439701, 1064378502, 1046552824, -1093311619, -1082139609, -1096427011,
    1063009770, 1062536596, -1105906709, -1085970424, 1063745371, 1041594055,
    1058852865, 1063887774, 1057817770, 1059920289, 1058160581, 1057456281,
    1056481500, -1082401621, 1061720096, 1058398248, -1083852772, 1058504437,
    1038623739, -1089067853, -1093242671, -1093024220, -1083015142, -1091200432,
    1041211721, 1058815703, 1061052122, -1088441073, 1026318178, -1096215605,
    -1102616652, 1060623332, 1053399551, -1099543574, -1087420735, -1089124345,
    -1085980754, -1103468101, 1051506862, 1017936405, 1037249298, -1129499408,
    -1096322649, -1088763090, -1087606283, 1043089809, 1056432123, 1053233317,
    1048255154, -1124687679, -1095039354, -1097060574, 1057173248, -1088296561,
    -1093913636, -1084999832, 1064185900, -1085147732, -1082743529, -1086013896,
    -1086362511, 1064047804, -1086503747, -1088743890, 1055317308, 1048635917,
    1044167844, 1049914098, -1088590980, -1091616973, 1058143058, 1014860251,
    1061240343, -1108784268, -1105239840, 1059961401, -1115218491, 1061929346,
    1054812093, 1060639270, 1028792985, 1062713718, 1044787042, -1109426189,
    1050928594, -1086745868, -1102972713, -1088749134, -1100312514, 1050807327,
    1060179955, 1017828901, -1110508769, 1062309530, -1088976371, 1044998987,
    1058636084, -1090004563, -1094584334, 1058257879, 1049738946, -1096091387,
    1052086504, -1102536770, -1086984808, -1084179746, 1064660260, -1083963836,
    1051915852, 1052138229, -1091741134, 1064303109, -1083409686, 1051694696,
    -1084004264, 1041479310, 1065167726, 1051039422, -1092640542, -1105653888,
    1057467581, 1053592178, 1065155609, 1036971127, 1062423886, 1062770168,
    -1099354997, -1094380575, -1116896797, -1086068040, -1082552679, -1082627414,
    1060359703, -1112581251, 1050394436, 1051128444, -1103093626, -1117325674,
    1043578284, -1084758355, -1098034726, 1061055851, 1017020959, -1101181615,
    -1099607194, 1059645100, -1087736927, 1042089356, -1095650547, 1036718373,
    1059561177, -1089826431, 1045209683, 1052877606, 1056151984, -1086861356,
    -1085951278, 1060933230, -1086562112, -1089636470, 1060062327, 1030727567,
    1033047434, -1102910322, 1063331829, 1056276114, -1094494185, 1063926292,
    -1092340049, 1064991658, 1055652576, 1060456768, -1116139921, -1120173313,
    1064439037, 1016580510, -1082678620, 1054183552, 1061194038, -1106442807,
    -1088070160, -1098163325, -1091182684, 1050156435, 1057140687, -1139799378,
    -1094124072, -1085868082, -1088348073, 1035302739, -1084006090, 1062821946,
    1057108122, 1062211735, -1090432036, -1083611122,
];

/// Third components of the unit vectors of `CELL_3D_X`.
pub const CELL_3D_Z: [i32; 256] = [
    -1103364096, -1098776576, -1114112000, 1049755648, 1050017792, 1063321600,
    -1126170624, 1063583744, -1089273856, 1048707072, 1048313856, 1058340864,
    -1090191360, -1085079552, 1064370176, -1086128128, -1110966272, 1060569088,
    1044643840, 1061355520, 1055522816, -1108869120, 1064239104, 1046740992,
    1060438016, -1084162048, 1062535168, 1063976960, 1062273024, -1090912256,
    1064501248, -1104936960, -1083244544, 1030750208, -1084948480, 1053949952,
    1065287680, 1061879808, -1089798144, 1057161216, 1048969216, -1082589184,
    -1086914560, -1089011712, 1034420224, 1060700160, 1063845888, 1061093376,
    1057816576, -1094320128, 1060962304, 1050542080, -1084555264, -1104412672,
    1057947648, 1050804224, -1095106560, 1062666240, 1017118720, -1115160576,
    -1095892992, -1096679424, 1055784960, -1094844416, 1054212096, -1097465856,
    1054998528, -1118830592, -1112014848, 1058996224, 1061748736, -1097203712,
    1053425664, -1105985536, -1099694080, -1085341696, 1051852800, 1040449536,
    -1085603840, 1026555904, 1057423360, -1087963136, -1120927744, -1085472768,
    -1086783488, 1043595264, 1049493504, 1059913728, 1058078720, 1059258368,
    -1083506688, 1060044800, -1083637760, 1045168128, -1107820544, 1058209792,
    1056571392, 1062010880, 1057030144, -1098514432, 1065156608, -1087307776,
    1052639232, 1054474240, -1088225280, 1053687808, -1123024896, -1091698688,
    -1088356352, 1050279936, 1062928384, -1096417280, -1089404928, -1089929216,
    -1116733440, -1130364928, 1035468800, -1091436544, -1099169792, 1051066368,
    -1097728000, 1046216704, 1041498112, -1089667072, -1095368704, -1091960832,
    1064894464, 1056833536, 1058471936, -1087176704, -1085997056, -1082851328,
    1021313024, 1024458752, 1064632320, -1089142784, 1060306944, -1105461248,
    1033371648, 1010827264, -1082195968, 1052114944, 1051328512, -1087832064,
    -1088487424, -1088618496, 1057554432, -1085865984, 1059127296, 1063190528,
    1057685504, 1063059456, -1093009408, -1091174400, 1061617664, 1059782656,
    -1086390272, -1092747264, -1096155136, -1087700992, 1032323072, -1083113472,
    -1102839808, 1065025536, 1059520512, -1101791232, -1097990144, 1055260672,
    -1086652416, -1102315520, 1045692416, -1101266944, -1096941568, 1059651584,
    -1095630848, 1064108032, -1136656384, 1062404096, 1060175872, -1082458112,
    1062797312, 1047265280, 1042022400, 1040973824, 1052901376, 1038614528,
    -1086259200, -1085210624, -1094057984, -1092222976, 1039663104, 1044119552,
    -1087045632, -1083375616, 1047789568, -1085734912, -1082720256, 1060831232,
    -1083899904, -1090322432, -1084424192, -1088094208, -1107034112, 1063714816,
    -1090650112, -1093795840, -1098252288, -1084030976, 1052377088, 1058603008,
    -1106509824, -1084817408, -1082982400, 1063452672, -1084293120, 1042546688,
    1058865152, -1090453504, -1087569920, 1061224448, -1093271552, -1089536000,
    1043070976, -1100218368, -1092485120, 1051590656, -1088880640, -1094582272,
    1036517376, 1028653056, 1058734080, 1059389440, 998244352, 1064763392,
    -1103888384, -1082327040, -1113063424, -1084686336, -1088749568, 1049231360,
    -1086521344, 1037565952, 1056047104, 1061486592, 1062141952, 1054736384,
    -1083768832, -1109917696, -1149239296, -1090060288, 1053163520, 1056309248,
    -1087438848, 1057292288, -1100742656, -1093533696,
];

} // verus!
