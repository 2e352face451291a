use openrtb::vocabulary::content_category::ContentCategory;
use openrtb::vocabulary::Vocabulary;

#[test]
fn content_category_table() {
    let table = [
        (ContentCategory::Undefined, 0, "UNDEFINED"),
        (ContentCategory::Iab1, 1, "IAB1"),
        (ContentCategory::Iab1_1, 2, "IAB1-1"),
        (ContentCategory::Iab1_2, 3, "IAB1-2"),
        (ContentCategory::Iab1_3, 4, "IAB1-3"),
        (ContentCategory::Iab1_4, 5, "IAB1-4"),
        (ContentCategory::Iab1_5, 6, "IAB1-5"),
        (ContentCategory::Iab1_6, 7, "IAB1-6"),
        (ContentCategory::Iab1_7, 8, "IAB1-7"),
        (ContentCategory::Iab2, 9, "IAB2"),
        (ContentCategory::Iab2_1, 10, "IAB2-1"),
        (ContentCategory::Iab2_2, 11, "IAB2-2"),
        (ContentCategory::Iab2_3, 12, "IAB2-3"),
        (ContentCategory::Iab2_4, 13, "IAB2-4"),
        (ContentCategory::Iab2_5, 14, "IAB2-5"),
        (ContentCategory::Iab2_6, 15, "IAB2-6"),
        (ContentCategory::Iab2_7, 16, "IAB2-7"),
        (ContentCategory::Iab2_8, 17, "IAB2-8"),
        (ContentCategory::Iab2_9, 18, "IAB2-9"),
        (ContentCategory::Iab2_10, 19, "IAB2-10"),
        (ContentCategory::Iab2_11, 20, "IAB2-11"),
        (ContentCategory::Iab2_12, 21, "IAB2-12"),
        (ContentCategory::Iab2_13, 22, "IAB2-13"),
        (ContentCategory::Iab2_14, 23, "IAB2-14"),
        (ContentCategory::Iab2_15, 24, "IAB2-15"),
        (ContentCategory::Iab2_16, 25, "IAB2-16"),
        (ContentCategory::Iab2_17, 26, "IAB2-17"),
        (ContentCategory::Iab2_18, 27, "IAB2-18"),
        (ContentCategory::Iab2_19, 28, "IAB2-19"),
        (ContentCategory::Iab2_20, 29, "IAB2-20"),
        (ContentCategory::Iab2_21, 30, "IAB2-21"),
        (ContentCategory::Iab2_22, 31, "IAB2-22"),
        (ContentCategory::Iab2_23, 32, "IAB2-23"),
        (ContentCategory::Iab3, 33, "IAB3"),
        (ContentCategory::Iab3_1, 34, "IAB3-1"),
        (ContentCategory::Iab3_2, 35, "IAB3-2"),
        (ContentCategory::Iab3_3, 36, "IAB3-3"),
        (ContentCategory::Iab3_4, 37, "IAB3-4"),
        (ContentCategory::Iab3_5, 38, "IAB3-5"),
        (ContentCategory::Iab3_6, 39, "IAB3-6"),
        (ContentCategory::Iab3_7, 40, "IAB3-7"),
        (ContentCategory::Iab3_8, 41, "IAB3-8"),
        (ContentCategory::Iab3_9, 42, "IAB3-9"),
        (ContentCategory::Iab3_10, 43, "IAB3-10"),
        (ContentCategory::Iab3_11, 44, "IAB3-11"),
        (ContentCategory::Iab3_12, 45, "IAB3-12"),
        (ContentCategory::Iab4, 46, "IAB4"),
        (ContentCategory::Iab4_1, 47, "IAB4-1"),
        (ContentCategory::Iab4_2, 48, "IAB4-2"),
        (ContentCategory::Iab4_3, 49, "IAB4-3"),
        (ContentCategory::Iab4_4, 50, "IAB4-4"),
        (ContentCategory::Iab4_5, 51, "IAB4-5"),
        (ContentCategory::Iab4_6, 52, "IAB4-6"),
        (ContentCategory::Iab4_7, 53, "IAB4-7"),
        (ContentCategory::Iab4_8, 54, "IAB4-8"),
        (ContentCategory::Iab4_9, 55, "IAB4-9"),
        (ContentCategory::Iab4_10, 56, "IAB4-10"),
        (ContentCategory::Iab4_11, 57, "IAB4-11"),
        (ContentCategory::Iab5, 58, "IAB5"),
        (ContentCategory::Iab5_1, 59, "IAB5-1"),
        (ContentCategory::Iab5_2, 60, "IAB5-2"),
        (ContentCategory::Iab5_3, 61, "IAB5-3"),
        (ContentCategory::Iab5_4, 62, "IAB5-4"),
        (ContentCategory::Iab5_5, 63, "IAB5-5"),
        (ContentCategory::Iab5_6, 64, "IAB5-6"),
        (ContentCategory::Iab5_7, 65, "IAB5-7"),
        (ContentCategory::Iab5_8, 66, "IAB5-8"),
        (ContentCategory::Iab5_9, 67, "IAB5-9"),
        (ContentCategory::Iab5_10, 68, "IAB5-10"),
        (ContentCategory::Iab5_11, 69, "IAB5-11"),
        (ContentCategory::Iab5_12, 70, "IAB5-12"),
        (ContentCategory::Iab5_13, 71, "IAB5-13"),
        (ContentCategory::Iab5_14, 72, "IAB5-14"),
        (ContentCategory::Iab5_15, 73, "IAB5-15"),
        (ContentCategory::Iab6, 74, "IAB6"),
        (ContentCategory::Iab6_1, 75, "IAB6-1"),
        (ContentCategory::Iab6_2, 76, "IAB6-2"),
        (ContentCategory::Iab6_3, 77, "IAB6-3"),
        (ContentCategory::Iab6_4, 78, "IAB6-4"),
        (ContentCategory::Iab6_5, 79, "IAB6-5"),
        (ContentCategory::Iab6_6, 80, "IAB6-6"),
        (ContentCategory::Iab6_7, 81, "IAB6-7"),
        (ContentCategory::Iab6_8, 82, "IAB6-8"),
        (ContentCategory::Iab6_9, 83, "IAB6-9"),
        (ContentCategory::Iab7, 84, "IAB7"),
        (ContentCategory::Iab7_1, 85, "IAB7-1"),
        (ContentCategory::Iab7_2, 86, "IAB7-2"),
        (ContentCategory::Iab7_3, 87, "IAB7-3"),
        (ContentCategory::Iab7_4, 88, "IAB7-4"),
        (ContentCategory::Iab7_5, 89, "IAB7-5"),
        (ContentCategory::Iab7_6, 90, "IAB7-6"),
        (ContentCategory::Iab7_7, 91, "IAB7-7"),
        (ContentCategory::Iab7_8, 92, "IAB7-8"),
        (ContentCategory::Iab7_9, 93, "IAB7-9"),
        (ContentCategory::Iab7_10, 94, "IAB7-10"),
        (ContentCategory::Iab7_11, 95, "IAB7-11"),
        (ContentCategory::Iab7_12, 96, "IAB7-12"),
        (ContentCategory::Iab7_13, 97, "IAB7-13"),
        (ContentCategory::Iab7_14, 98, "IAB7-14"),
        (ContentCategory::Iab7_15, 99, "IAB7-15"),
        (ContentCategory::Iab7_16, 100, "IAB7-16"),
        (ContentCategory::Iab7_17, 101, "IAB7-17"),
        (ContentCategory::Iab7_18, 102, "IAB7-18"),
        (ContentCategory::Iab7_19, 103, "IAB7-19"),
        (ContentCategory::Iab7_20, 104, "IAB7-20"),
        (ContentCategory::Iab7_21, 105, "IAB7-21"),
        (ContentCategory::Iab7_22, 106, "IAB7-22"),
        (ContentCategory::Iab7_23, 107, "IAB7-23"),
        (ContentCategory::Iab7_24, 108, "IAB7-24"),
        (ContentCategory::Iab7_25, 109, "IAB7-25"),
        (ContentCategory::Iab7_26, 110, "IAB7-26"),
        (ContentCategory::Iab7_27, 111, "IAB7-27"),
        (ContentCategory::Iab7_28, 112, "IAB7-28"),
        (ContentCategory::Iab7_29, 113, "IAB7-29"),
        (ContentCategory::Iab7_30, 114, "IAB7-30"),
        (ContentCategory::Iab7_31, 115, "IAB7-31"),
        (ContentCategory::Iab7_32, 116, "IAB7-32"),
        (ContentCategory::Iab7_33, 117, "IAB7-33"),
        (ContentCategory::Iab7_34, 118, "IAB7-34"),
        (ContentCategory::Iab7_35, 119, "IAB7-35"),
        (ContentCategory::Iab7_36, 120, "IAB7-36"),
        (ContentCategory::Iab7_37, 121, "IAB7-37"),
        (ContentCategory::Iab7_38, 122, "IAB7-38"),
        (ContentCategory::Iab7_39, 123, "IAB7-39"),
        (ContentCategory::Iab7_40, 124, "IAB7-40"),
        (ContentCategory::Iab7_41, 125, "IAB7-41"),
        (ContentCategory::Iab7_42, 126, "IAB7-42"),
        (ContentCategory::Iab7_43, 127, "IAB7-43"),
        (ContentCategory::Iab7_44, 128, "IAB7-44"),
        (ContentCategory::Iab7_45, 129, "IAB7-45"),
        (ContentCategory::Iab8, 130, "IAB8"),
        (ContentCategory::Iab8_1, 131, "IAB8-1"),
        (ContentCategory::Iab8_2, 132, "IAB8-2"),
        (ContentCategory::Iab8_3, 133, "IAB8-3"),
        (ContentCategory::Iab8_4, 134, "IAB8-4"),
        (ContentCategory::Iab8_5, 135, "IAB8-5"),
        (ContentCategory::Iab8_6, 136, "IAB8-6"),
        (ContentCategory::Iab8_7, 137, "IAB8-7"),
        (ContentCategory::Iab8_8, 138, "IAB8-8"),
        (ContentCategory::Iab8_9, 139, "IAB8-9"),
        (ContentCategory::Iab8_10, 140, "IAB8-10"),
        (ContentCategory::Iab8_11, 141, "IAB8-11"),
        (ContentCategory::Iab8_12, 142, "IAB8-12"),
        (ContentCategory::Iab8_13, 143, "IAB8-13"),
        (ContentCategory::Iab8_14, 144, "IAB8-14"),
        (ContentCategory::Iab8_15, 145, "IAB8-15"),
        (ContentCategory::Iab8_16, 146, "IAB8-16"),
        (ContentCategory::Iab8_17, 147, "IAB8-17"),
        (ContentCategory::Iab8_18, 148, "IAB8-18"),
        (ContentCategory::Iab9, 149, "IAB9"),
        (ContentCategory::Iab9_1, 150, "IAB9-1"),
        (ContentCategory::Iab9_2, 151, "IAB9-2"),
        (ContentCategory::Iab9_3, 152, "IAB9-3"),
        (ContentCategory::Iab9_4, 153, "IAB9-4"),
        (ContentCategory::Iab9_5, 154, "IAB9-5"),
        (ContentCategory::Iab9_6, 155, "IAB9-6"),
        (ContentCategory::Iab9_7, 156, "IAB9-7"),
        (ContentCategory::Iab9_8, 157, "IAB9-8"),
        (ContentCategory::Iab9_9, 158, "IAB9-9"),
        (ContentCategory::Iab9_10, 159, "IAB9-10"),
        (ContentCategory::Iab9_11, 160, "IAB9-11"),
        (ContentCategory::Iab9_12, 161, "IAB9-12"),
        (ContentCategory::Iab9_13, 162, "IAB9-13"),
        (ContentCategory::Iab9_14, 163, "IAB9-14"),
        (ContentCategory::Iab9_15, 164, "IAB9-15"),
        (ContentCategory::Iab9_16, 165, "IAB9-16"),
        (ContentCategory::Iab9_17, 166, "IAB9-17"),
        (ContentCategory::Iab9_18, 167, "IAB9-18"),
        (ContentCategory::Iab9_19, 168, "IAB9-19"),
        (ContentCategory::Iab9_20, 169, "IAB9-20"),
        (ContentCategory::Iab9_21, 170, "IAB9-21"),
        (ContentCategory::Iab9_22, 171, "IAB9-22"),
        (ContentCategory::Iab9_23, 172, "IAB9-23"),
        (ContentCategory::Iab9_24, 173, "IAB9-24"),
        (ContentCategory::Iab9_25, 174, "IAB9-25"),
        (ContentCategory::Iab9_26, 175, "IAB9-26"),
        (ContentCategory::Iab9_27, 176, "IAB9-27"),
        (ContentCategory::Iab9_28, 177, "IAB9-28"),
        (ContentCategory::Iab9_29, 178, "IAB9-29"),
        (ContentCategory::Iab9_30, 179, "IAB9-30"),
        (ContentCategory::Iab9_31, 180, "IAB9-31"),
        (ContentCategory::Iab10, 181, "IAB10"),
        (ContentCategory::Iab10_1, 182, "IAB10-1"),
        (ContentCategory::Iab10_2, 183, "IAB10-2"),
        (ContentCategory::Iab10_3, 184, "IAB10-3"),
        (ContentCategory::Iab10_4, 185, "IAB10-4"),
        (ContentCategory::Iab10_5, 186, "IAB10-5"),
        (ContentCategory::Iab10_6, 187, "IAB10-6"),
        (ContentCategory::Iab10_7, 188, "IAB10-7"),
        (ContentCategory::Iab10_8, 189, "IAB10-8"),
        (ContentCategory::Iab10_9, 190, "IAB10-9"),
        (ContentCategory::Iab11, 191, "IAB11"),
        (ContentCategory::Iab11_1, 192, "IAB11-1"),
        (ContentCategory::Iab11_2, 193, "IAB11-2"),
        (ContentCategory::Iab11_3, 194, "IAB11-3"),
        (ContentCategory::Iab11_4, 195, "IAB11-4"),
        (ContentCategory::Iab11_5, 196, "IAB11-5"),
        (ContentCategory::Iab12, 197, "IAB12"),
        (ContentCategory::Iab12_1, 198, "IAB12-1"),
        (ContentCategory::Iab12_2, 199, "IAB12-2"),
        (ContentCategory::Iab12_3, 200, "IAB12-3"),
        (ContentCategory::Iab13, 201, "IAB13"),
        (ContentCategory::Iab13_1, 202, "IAB13-1"),
        (ContentCategory::Iab13_2, 203, "IAB13-2"),
        (ContentCategory::Iab13_3, 204, "IAB13-3"),
        (ContentCategory::Iab13_4, 205, "IAB13-4"),
        (ContentCategory::Iab13_5, 206, "IAB13-5"),
        (ContentCategory::Iab13_6, 207, "IAB13-6"),
        (ContentCategory::Iab13_7, 208, "IAB13-7"),
        (ContentCategory::Iab13_8, 209, "IAB13-8"),
        (ContentCategory::Iab13_9, 210, "IAB13-9"),
        (ContentCategory::Iab13_10, 211, "IAB13-10"),
        (ContentCategory::Iab13_11, 212, "IAB13-11"),
        (ContentCategory::Iab13_12, 213, "IAB13-12"),
        (ContentCategory::Iab14, 214, "IAB14"),
        (ContentCategory::Iab14_1, 215, "IAB14-1"),
        (ContentCategory::Iab14_2, 216, "IAB14-2"),
        (ContentCategory::Iab14_3, 217, "IAB14-3"),
        (ContentCategory::Iab14_4, 218, "IAB14-4"),
        (ContentCategory::Iab14_5, 219, "IAB14-5"),
        (ContentCategory::Iab14_6, 220, "IAB14-6"),
        (ContentCategory::Iab14_7, 221, "IAB14-7"),
        (ContentCategory::Iab14_8, 222, "IAB14-8"),
        (ContentCategory::Iab15, 223, "IAB15"),
        (ContentCategory::Iab15_1, 224, "IAB15-1"),
        (ContentCategory::Iab15_2, 225, "IAB15-2"),
        (ContentCategory::Iab15_3, 226, "IAB15-3"),
        (ContentCategory::Iab15_4, 227, "IAB15-4"),
        (ContentCategory::Iab15_5, 228, "IAB15-5"),
        (ContentCategory::Iab15_6, 229, "IAB15-6"),
        (ContentCategory::Iab15_7, 230, "IAB15-7"),
        (ContentCategory::Iab15_8, 231, "IAB15-8"),
        (ContentCategory::Iab15_9, 232, "IAB15-9"),
        (ContentCategory::Iab15_10, 233, "IAB15-10"),
        (ContentCategory::Iab16, 234, "IAB16"),
        (ContentCategory::Iab16_1, 235, "IAB16-1"),
        (ContentCategory::Iab16_2, 236, "IAB16-2"),
        (ContentCategory::Iab16_3, 237, "IAB16-3"),
        (ContentCategory::Iab16_4, 238, "IAB16-4"),
        (ContentCategory::Iab16_5, 239, "IAB16-5"),
        (ContentCategory::Iab16_6, 240, "IAB16-6"),
        (ContentCategory::Iab16_7, 241, "IAB16-7"),
        (ContentCategory::Iab17, 242, "IAB17"),
        (ContentCategory::Iab17_1, 243, "IAB17-1"),
        (ContentCategory::Iab17_2, 244, "IAB17-2"),
        (ContentCategory::Iab17_3, 245, "IAB17-3"),
        (ContentCategory::Iab17_4, 246, "IAB17-4"),
        (ContentCategory::Iab17_5, 247, "IAB17-5"),
        (ContentCategory::Iab17_6, 248, "IAB17-6"),
        (ContentCategory::Iab17_7, 249, "IAB17-7"),
        (ContentCategory::Iab17_8, 250, "IAB17-8"),
        (ContentCategory::Iab17_9, 251, "IAB17-9"),
        (ContentCategory::Iab17_10, 252, "IAB17-10"),
        (ContentCategory::Iab17_11, 253, "IAB17-11"),
        (ContentCategory::Iab17_12, 254, "IAB17-12"),
        (ContentCategory::Iab17_13, 255, "IAB17-13"),
        (ContentCategory::Iab17_14, 256, "IAB17-14"),
        (ContentCategory::Iab17_15, 257, "IAB17-15"),
        (ContentCategory::Iab17_16, 258, "IAB17-16"),
        (ContentCategory::Iab17_17, 259, "IAB17-17"),
        (ContentCategory::Iab17_18, 260, "IAB17-18"),
        (ContentCategory::Iab17_19, 261, "IAB17-19"),
        (ContentCategory::Iab17_20, 262, "IAB17-20"),
        (ContentCategory::Iab17_21, 263, "IAB17-21"),
        (ContentCategory::Iab17_22, 264, "IAB17-22"),
        (ContentCategory::Iab17_23, 265, "IAB17-23"),
        (ContentCategory::Iab17_24, 266, "IAB17-24"),
        (ContentCategory::Iab17_25, 267, "IAB17-25"),
        (ContentCategory::Iab17_26, 268, "IAB17-26"),
        (ContentCategory::Iab17_27, 269, "IAB17-27"),
        (ContentCategory::Iab17_28, 270, "IAB17-28"),
        (ContentCategory::Iab17_29, 271, "IAB17-29"),
        (ContentCategory::Iab17_30, 272, "IAB17-30"),
        (ContentCategory::Iab17_31, 273, "IAB17-31"),
        (ContentCategory::Iab17_32, 274, "IAB17-32"),
        (ContentCategory::Iab17_33, 275, "IAB17-33"),
        (ContentCategory::Iab17_34, 276, "IAB17-34"),
        (ContentCategory::Iab17_35, 277, "IAB17-35"),
        (ContentCategory::Iab17_36, 278, "IAB17-36"),
        (ContentCategory::Iab17_37, 279, "IAB17-37"),
        (ContentCategory::Iab17_38, 280, "IAB17-38"),
        (ContentCategory::Iab17_39, 281, "IAB17-39"),
        (ContentCategory::Iab17_40, 282, "IAB17-40"),
        (ContentCategory::Iab17_41, 283, "IAB17-41"),
        (ContentCategory::Iab17_42, 284, "IAB17-42"),
        (ContentCategory::Iab17_43, 285, "IAB17-43"),
        (ContentCategory::Iab17_44, 286, "IAB17-44"),
        (ContentCategory::Iab18, 287, "IAB18"),
        (ContentCategory::Iab18_1, 288, "IAB18-1"),
        (ContentCategory::Iab18_2, 289, "IAB18-2"),
        (ContentCategory::Iab18_3, 290, "IAB18-3"),
        (ContentCategory::Iab18_4, 291, "IAB18-4"),
        (ContentCategory::Iab18_5, 292, "IAB18-5"),
        (ContentCategory::Iab18_6, 293, "IAB18-6"),
        (ContentCategory::Iab19, 294, "IAB19"),
        (ContentCategory::Iab19_1, 295, "IAB19-1"),
        (ContentCategory::Iab19_2, 296, "IAB19-2"),
        (ContentCategory::Iab19_3, 297, "IAB19-3"),
        (ContentCategory::Iab19_4, 298, "IAB19-4"),
        (ContentCategory::Iab19_5, 299, "IAB19-5"),
        (ContentCategory::Iab19_6, 300, "IAB19-6"),
        (ContentCategory::Iab19_7, 301, "IAB19-7"),
        (ContentCategory::Iab19_8, 302, "IAB19-8"),
        (ContentCategory::Iab19_9, 303, "IAB19-9"),
        (ContentCategory::Iab19_10, 304, "IAB19-10"),
        (ContentCategory::Iab19_11, 305, "IAB19-11"),
        (ContentCategory::Iab19_12, 306, "IAB19-12"),
        (ContentCategory::Iab19_13, 307, "IAB19-13"),
        (ContentCategory::Iab19_14, 308, "IAB19-14"),
        (ContentCategory::Iab19_15, 309, "IAB19-15"),
        (ContentCategory::Iab19_16, 310, "IAB19-16"),
        (ContentCategory::Iab19_17, 311, "IAB19-17"),
        (ContentCategory::Iab19_18, 312, "IAB19-18"),
        (ContentCategory::Iab19_19, 313, "IAB19-19"),
        (ContentCategory::Iab19_20, 314, "IAB19-20"),
        (ContentCategory::Iab19_21, 315, "IAB19-21"),
        (ContentCategory::Iab19_22, 316, "IAB19-22"),
        (ContentCategory::Iab19_23, 317, "IAB19-23"),
        (ContentCategory::Iab19_24, 318, "IAB19-24"),
        (ContentCategory::Iab19_25, 319, "IAB19-25"),
        (ContentCategory::Iab19_26, 320, "IAB19-26"),
        (ContentCategory::Iab19_27, 321, "IAB19-27"),
        (ContentCategory::Iab19_28, 322, "IAB19-28"),
        (ContentCategory::Iab19_29, 323, "IAB19-29"),
        (ContentCategory::Iab19_30, 324, "IAB19-30"),
        (ContentCategory::Iab19_31, 325, "IAB19-31"),
        (ContentCategory::Iab19_32, 326, "IAB19-32"),
        (ContentCategory::Iab19_33, 327, "IAB19-33"),
        (ContentCategory::Iab19_34, 328, "IAB19-34"),
        (ContentCategory::Iab19_35, 329, "IAB19-35"),
        (ContentCategory::Iab19_36, 330, "IAB19-36"),
        (ContentCategory::Iab20, 331, "IAB20"),
        (ContentCategory::Iab20_1, 332, "IAB20-1"),
        (ContentCategory::Iab20_2, 333, "IAB20-2"),
        (ContentCategory::Iab20_3, 334, "IAB20-3"),
        (ContentCategory::Iab20_4, 335, "IAB20-4"),
        (ContentCategory::Iab20_5, 336, "IAB20-5"),
        (ContentCategory::Iab20_6, 337, "IAB20-6"),
        (ContentCategory::Iab20_7, 338, "IAB20-7"),
        (ContentCategory::Iab20_8, 339, "IAB20-8"),
        (ContentCategory::Iab20_9, 340, "IAB20-9"),
        (ContentCategory::Iab20_10, 341, "IAB20-10"),
        (ContentCategory::Iab20_11, 342, "IAB20-11"),
        (ContentCategory::Iab20_12, 343, "IAB20-12"),
        (ContentCategory::Iab20_13, 344, "IAB20-13"),
        (ContentCategory::Iab20_14, 345, "IAB20-14"),
        (ContentCategory::Iab20_15, 346, "IAB20-15"),
        (ContentCategory::Iab20_16, 347, "IAB20-16"),
        (ContentCategory::Iab20_17, 348, "IAB20-17"),
        (ContentCategory::Iab20_18, 349, "IAB20-18"),
        (ContentCategory::Iab20_19, 350, "IAB20-19"),
        (ContentCategory::Iab20_20, 351, "IAB20-20"),
        (ContentCategory::Iab20_21, 352, "IAB20-21"),
        (ContentCategory::Iab20_22, 353, "IAB20-22"),
        (ContentCategory::Iab20_23, 354, "IAB20-23"),
        (ContentCategory::Iab20_24, 355, "IAB20-24"),
        (ContentCategory::Iab20_25, 356, "IAB20-25"),
        (ContentCategory::Iab20_26, 357, "IAB20-26"),
        (ContentCategory::Iab20_27, 358, "IAB20-27"),
        (ContentCategory::Iab21, 359, "IAB21"),
        (ContentCategory::Iab21_1x, 360, "IAB21-1"),
        (ContentCategory::Iab21_2x, 361, "IAB21-2"),
        (ContentCategory::Iab21_3x, 362, "IAB21-3"),
        (ContentCategory::Iab22, 363, "IAB22"),
        (ContentCategory::Iab22_1x, 364, "IAB22-1"),
        (ContentCategory::Iab22_2x, 365, "IAB22-2"),
        (ContentCategory::Iab22_3x, 366, "IAB22-3"),
        (ContentCategory::Iab22_4, 367, "IAB22-4"),
        (ContentCategory::Iab23, 368, "IAB23"),
        (ContentCategory::Iab23_1, 369, "IAB23-1"),
        (ContentCategory::Iab23_2, 370, "IAB23-2"),
        (ContentCategory::Iab23_3, 371, "IAB23-3"),
        (ContentCategory::Iab23_4, 372, "IAB23-4"),
        (ContentCategory::Iab23_5, 373, "IAB23-5"),
        (ContentCategory::Iab23_6, 374, "IAB23-6"),
        (ContentCategory::Iab23_7, 375, "IAB23-7"),
        (ContentCategory::Iab23_8, 376, "IAB23-8"),
        (ContentCategory::Iab23_9, 377, "IAB23-9"),
        (ContentCategory::Iab23_10, 378, "IAB23-10"),
        (ContentCategory::Iab24, 379, "IAB24"),
        (ContentCategory::Iab25, 380, "IAB25"),
        (ContentCategory::Iab25_1, 381, "IAB25-1"),
        (ContentCategory::Iab25_2, 382, "IAB25-2"),
        (ContentCategory::Iab25_3, 383, "IAB25-3"),
        (ContentCategory::Iab25_4, 384, "IAB25-4"),
        (ContentCategory::Iab25_5, 385, "IAB25-5"),
        (ContentCategory::Iab25_6, 386, "IAB25-6"),
        (ContentCategory::Iab25_7, 387, "IAB25-7"),
        (ContentCategory::Iab26, 388, "IAB26"),
        (ContentCategory::Iab26_1, 389, "IAB26-1"),
        (ContentCategory::Iab26_2, 390, "IAB26-2"),
        (ContentCategory::Iab26_3, 391, "IAB26-3"),
        (ContentCategory::Iab26_4, 392, "IAB26-4"),
    ];
    assert_eq!(table.len(), 393);
    for (member, code, name) in table {
        assert_eq!(member.code(), code);
        assert_eq!(ContentCategory::from_code(code), Some(member));
        assert_eq!(member.as_str_name(), name);
    }
}

#[test]
fn content_category_codes_are_the_rows_of_the_table() {
    for code in 0..=392 {
        let member = ContentCategory::from_code(code).unwrap();
        assert_eq!(member.code(), code);
    }
    assert_eq!(ContentCategory::from_code(-1), None);
    assert_eq!(ContentCategory::from_code(393), None);
    assert_eq!(ContentCategory::from_code(i32::MAX), None);
}

#[test]
fn content_category_names_are_the_published_identifiers() {
    assert_eq!(ContentCategory::Undefined.as_str_name(), "UNDEFINED");
    assert_eq!(ContentCategory::Iab1.as_str_name(), "IAB1");
    assert_eq!(ContentCategory::Iab2_10.as_str_name(), "IAB2-10");
    assert_eq!(ContentCategory::Iab26_4.as_str_name(), "IAB26-4");
    for code in 1..=392 {
        let name = ContentCategory::from_code(code).unwrap().as_str_name();
        assert!(name.starts_with("IAB"));
    }
}

#[test]
fn content_categories_are_ordered_by_code() {
    assert!(ContentCategory::Undefined < ContentCategory::Iab1);
    assert!(ContentCategory::Iab1_7 < ContentCategory::Iab2);
    assert!(ContentCategory::Iab26_3 < ContentCategory::Iab26_4);
}
