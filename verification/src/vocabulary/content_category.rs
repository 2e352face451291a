//! The IAB content taxonomy.

use crate::vocabulary::Vocabulary;
use vstd::prelude::*;

verus! {

/// The IAB content taxonomy, by which sites, apps, content and creatives are
/// categorised.
///
/// The wire integers number the published table from top to bottom; the display
/// names are the published identifiers, such as `IAB2-10`.
#[allow(non_camel_case_types)]
#[derive(Clone, Copy, Debug, PartialEq, Eq, Hash, PartialOrd, Ord, Structural)]
pub enum ContentCategory {
    /// No category; not a value of the published taxonomy.
    Undefined,
    /// Arts & Entertainment.
    Iab1,
    /// Books & Literature.
    Iab1_1,
    /// Celebrity Fan/Gossip.
    Iab1_2,
    /// Fine Art.
    Iab1_3,
    /// Humor.
    Iab1_4,
    /// Movies.
    Iab1_5,
    /// Music.
    Iab1_6,
    /// Television.
    Iab1_7,
    /// Automotive.
    Iab2,
    /// Auto Parts.
    Iab2_1,
    /// Auto Repair.
    Iab2_2,
    /// Buying/Selling Cars.
    Iab2_3,
    /// Car Culture.
    Iab2_4,
    /// Certified Pre-Owned.
    Iab2_5,
    /// Convertible.
    Iab2_6,
    /// Coupe.
    Iab2_7,
    /// Crossover.
    Iab2_8,
    /// Diesel.
    Iab2_9,
    /// Electric Vehicle.
    Iab2_10,
    /// Hatchback.
    Iab2_11,
    /// Hybrid.
    Iab2_12,
    /// Luxury.
    Iab2_13,
    /// MiniVan.
    Iab2_14,
    /// Motorcycles.
    Iab2_15,
    /// Off-Road Vehicles.
    Iab2_16,
    /// Performance Vehicles.
    Iab2_17,
    /// Pickup.
    Iab2_18,
    /// Road-Side Assistance.
    Iab2_19,
    /// Sedan.
    Iab2_20,
    /// Trucks & Accessories.
    Iab2_21,
    /// Vintage Cars.
    Iab2_22,
    /// Wagon.
    Iab2_23,
    /// Business.
    Iab3,
    /// Advertising.
    Iab3_1,
    /// Agriculture.
    Iab3_2,
    /// Biotech/Biomedical.
    Iab3_3,
    /// Business Software.
    Iab3_4,
    /// Construction.
    Iab3_5,
    /// Forestry.
    Iab3_6,
    /// Government.
    Iab3_7,
    /// Green Solutions.
    Iab3_8,
    /// Human Resources.
    Iab3_9,
    /// Logistics.
    Iab3_10,
    /// Marketing.
    Iab3_11,
    /// Metals.
    Iab3_12,
    /// Careers.
    Iab4,
    /// Career Planning.
    Iab4_1,
    /// College.
    Iab4_2,
    /// Financial Aid.
    Iab4_3,
    /// Job Fairs.
    Iab4_4,
    /// Job Search.
    Iab4_5,
    /// Resume Writing/Advice.
    Iab4_6,
    /// Nursing.
    Iab4_7,
    /// Scholarships.
    Iab4_8,
    /// Telecommuting.
    Iab4_9,
    /// U.S. Military.
    Iab4_10,
    /// Career Advice.
    Iab4_11,
    /// Education.
    Iab5,
    /// 7-12 Education.
    Iab5_1,
    /// Adult Education.
    Iab5_2,
    /// Art History.
    Iab5_3,
    /// College Administration.
    Iab5_4,
    /// College Life.
    Iab5_5,
    /// Distance Learning.
    Iab5_6,
    /// English as a 2nd Language.
    Iab5_7,
    /// Language Learning.
    Iab5_8,
    /// Graduate School.
    Iab5_9,
    /// Homeschooling.
    Iab5_10,
    /// Homework/Study Tips.
    Iab5_11,
    /// K-6 Educators.
    Iab5_12,
    /// Private School.
    Iab5_13,
    /// Special Education.
    Iab5_14,
    /// Studying Business.
    Iab5_15,
    /// Family & Parenting.
    Iab6,
    /// Adoption.
    Iab6_1,
    /// Babies & Toddlers.
    Iab6_2,
    /// Daycare/Pre School.
    Iab6_3,
    /// Family Internet.
    Iab6_4,
    /// Parenting - K-6 Kids.
    Iab6_5,
    /// Parenting teens.
    Iab6_6,
    /// Pregnancy.
    Iab6_7,
    /// Special Needs Kids.
    Iab6_8,
    /// Eldercare.
    Iab6_9,
    /// Health & Fitness.
    Iab7,
    /// Exercise.
    Iab7_1,
    /// A.D.D.
    Iab7_2,
    /// AIDS/HIV.
    Iab7_3,
    /// Allergies.
    Iab7_4,
    /// Alternative Medicine.
    Iab7_5,
    /// Arthritis.
    Iab7_6,
    /// Asthma.
    Iab7_7,
    /// Autism/PDD.
    Iab7_8,
    /// Bipolar Disorder.
    Iab7_9,
    /// Brain Tumor.
    Iab7_10,
    /// Cancer.
    Iab7_11,
    /// Cholesterol.
    Iab7_12,
    /// Chronic Fatigue Syndrome.
    Iab7_13,
    /// Chronic Pain.
    Iab7_14,
    /// Cold & Flu.
    Iab7_15,
    /// Deafness.
    Iab7_16,
    /// Dental Care.
    Iab7_17,
    /// Depression.
    Iab7_18,
    /// Dermatology.
    Iab7_19,
    /// Diabetes.
    Iab7_20,
    /// Epilepsy.
    Iab7_21,
    /// GERD/Acid Reflux.
    Iab7_22,
    /// Headaches/Migraines.
    Iab7_23,
    /// Heart Disease.
    Iab7_24,
    /// Herbs for Health.
    Iab7_25,
    /// Holistic Healing.
    Iab7_26,
    /// IBS/Crohn's Disease.
    Iab7_27,
    /// Incest/Abuse Support.
    Iab7_28,
    /// Incontinence.
    Iab7_29,
    /// Infertility.
    Iab7_30,
    /// Men's Health.
    Iab7_31,
    /// Nutrition.
    Iab7_32,
    /// Orthopedics.
    Iab7_33,
    /// Panic/Anxiety Disorders.
    Iab7_34,
    /// Pediatrics.
    Iab7_35,
    /// Physical Therapy.
    Iab7_36,
    /// Psychology/Psychiatry.
    Iab7_37,
    /// Senor Health.
    Iab7_38,
    /// Sexuality.
    Iab7_39,
    /// Sleep Disorders.
    Iab7_40,
    /// Smoking Cessation.
    Iab7_41,
    /// Substance Abuse.
    Iab7_42,
    /// Thyroid Disease.
    Iab7_43,
    /// Weight Loss.
    Iab7_44,
    /// Women's Health.
    Iab7_45,
    /// Food & Drink.
    Iab8,
    /// American Cuisine.
    Iab8_1,
    /// Barbecues & Grilling.
    Iab8_2,
    /// Cajun/Creole.
    Iab8_3,
    /// Chinese Cuisine.
    Iab8_4,
    /// Cocktails/Beer.
    Iab8_5,
    /// Coffee/Tea.
    Iab8_6,
    /// Cuisine-Specific.
    Iab8_7,
    /// Desserts & Baking.
    Iab8_8,
    /// Dining Out.
    Iab8_9,
    /// Food Allergies.
    Iab8_10,
    /// French Cuisine.
    Iab8_11,
    /// Health/Lowfat Cooking.
    Iab8_12,
    /// Italian Cuisine.
    Iab8_13,
    /// Japanese Cuisine.
    Iab8_14,
    /// Mexican Cuisine.
    Iab8_15,
    /// Vegan.
    Iab8_16,
    /// Vegetarian.
    Iab8_17,
    /// Wine.
    Iab8_18,
    /// Hobbies & Interests.
    Iab9,
    /// Art/Technology.
    Iab9_1,
    /// Arts & Crafts.
    Iab9_2,
    /// Beadwork.
    Iab9_3,
    /// Birdwatching.
    Iab9_4,
    /// Board Games/Puzzles.
    Iab9_5,
    /// Candle & Soap Making.
    Iab9_6,
    /// Card Games.
    Iab9_7,
    /// Chess.
    Iab9_8,
    /// Cigars.
    Iab9_9,
    /// Collecting.
    Iab9_10,
    /// Comic Books.
    Iab9_11,
    /// Drawing/Sketching.
    Iab9_12,
    /// Freelance Writing.
    Iab9_13,
    /// Geneaology.
    Iab9_14,
    /// Getting Published.
    Iab9_15,
    /// Guitar.
    Iab9_16,
    /// Home Recording.
    Iab9_17,
    /// Investors & Patents.
    Iab9_18,
    /// Jewelry Making.
    Iab9_19,
    /// Magic & Illusion.
    Iab9_20,
    /// Needlework.
    Iab9_21,
    /// Painting.
    Iab9_22,
    /// Photography.
    Iab9_23,
    /// Radio.
    Iab9_24,
    /// Roleplaying Games.
    Iab9_25,
    /// Sci-Fi & Fantasy.
    Iab9_26,
    /// Scrapbooking.
    Iab9_27,
    /// Screenwriting.
    Iab9_28,
    /// Stamps & Coins.
    Iab9_29,
    /// Video & Computer Games.
    Iab9_30,
    /// Woodworking.
    Iab9_31,
    /// Home & Garden.
    Iab10,
    /// Appliances.
    Iab10_1,
    /// Entertaining.
    Iab10_2,
    /// Environmental Safety.
    Iab10_3,
    /// Gardening.
    Iab10_4,
    /// Home Repair.
    Iab10_5,
    /// Home Theater.
    Iab10_6,
    /// Interior Decorating.
    Iab10_7,
    /// Landscaping.
    Iab10_8,
    /// Remodeling & Construction.
    Iab10_9,
    /// Law, Gov't & Politics.
    Iab11,
    /// Immigration.
    Iab11_1,
    /// Legal Issues.
    Iab11_2,
    /// U.S. Government Resources.
    Iab11_3,
    /// Politics.
    Iab11_4,
    /// Commentary.
    Iab11_5,
    /// News.
    Iab12,
    /// International News.
    Iab12_1,
    /// National News.
    Iab12_2,
    /// Local News.
    Iab12_3,
    /// Personal Finance.
    Iab13,
    /// Beginning Investing.
    Iab13_1,
    /// Credit/Debt & Loans.
    Iab13_2,
    /// Financial News.
    Iab13_3,
    /// Financial Planning.
    Iab13_4,
    /// Hedge Fund.
    Iab13_5,
    /// Insurance.
    Iab13_6,
    /// Investing.
    Iab13_7,
    /// Mutual Funds.
    Iab13_8,
    /// Options.
    Iab13_9,
    /// Retirement Planning.
    Iab13_10,
    /// Stocks.
    Iab13_11,
    /// Tax Planning.
    Iab13_12,
    /// Society.
    Iab14,
    /// Dating.
    Iab14_1,
    /// Divorce Support.
    Iab14_2,
    /// Gay Life.
    Iab14_3,
    /// Marriage.
    Iab14_4,
    /// Senior Living.
    Iab14_5,
    /// Teens.
    Iab14_6,
    /// Weddings.
    Iab14_7,
    /// Ethnic Specific.
    Iab14_8,
    /// Science.
    Iab15,
    /// Astrology.
    Iab15_1,
    /// Biology.
    Iab15_2,
    /// Chemistry.
    Iab15_3,
    /// Geology.
    Iab15_4,
    /// Paranormal Phenomena.
    Iab15_5,
    /// Physics.
    Iab15_6,
    /// Space/Astronomy.
    Iab15_7,
    /// Geography.
    Iab15_8,
    /// Botany.
    Iab15_9,
    /// Weather.
    Iab15_10,
    /// Pets.
    Iab16,
    /// Aquariums.
    Iab16_1,
    /// Birds.
    Iab16_2,
    /// Cats.
    Iab16_3,
    /// Dogs.
    Iab16_4,
    /// Large Animals.
    Iab16_5,
    /// Reptiles.
    Iab16_6,
    /// Veterinary Medicine.
    Iab16_7,
    /// Sports.
    Iab17,
    /// Auto Racing.
    Iab17_1,
    /// Baseball.
    Iab17_2,
    /// Bicycling.
    Iab17_3,
    /// Bodybuilding.
    Iab17_4,
    /// Boxing.
    Iab17_5,
    /// Canoeing/Kayaking.
    Iab17_6,
    /// Cheerleading.
    Iab17_7,
    /// Climbing.
    Iab17_8,
    /// Cricket.
    Iab17_9,
    /// Figure Skating.
    Iab17_10,
    /// Fly Fishing.
    Iab17_11,
    /// Football.
    Iab17_12,
    /// Freshwater Fishing.
    Iab17_13,
    /// Game & Fish.
    Iab17_14,
    /// Golf.
    Iab17_15,
    /// Horse Racing.
    Iab17_16,
    /// Horses.
    Iab17_17,
    /// Hunting/Shooting.
    Iab17_18,
    /// Inline Skating.
    Iab17_19,
    /// Martial Arts.
    Iab17_20,
    /// Mountain Biking.
    Iab17_21,
    /// NASCAR Racing.
    Iab17_22,
    /// Olympics.
    Iab17_23,
    /// Paintball.
    Iab17_24,
    /// Power & Motorcycles.
    Iab17_25,
    /// Pro Basketball.
    Iab17_26,
    /// Pro Ice Hockey.
    Iab17_27,
    /// Rodeo.
    Iab17_28,
    /// Rugby.
    Iab17_29,
    /// Running/Jogging.
    Iab17_30,
    /// Sailing.
    Iab17_31,
    /// Saltwater Fishing.
    Iab17_32,
    /// Scuba Diving.
    Iab17_33,
    /// Skateboarding.
    Iab17_34,
    /// Skiing.
    Iab17_35,
    /// Snowboarding.
    Iab17_36,
    /// Surfing/Bodyboarding.
    Iab17_37,
    /// Swimming.
    Iab17_38,
    /// Table Tennis/Ping-Pong.
    Iab17_39,
    /// Tennis.
    Iab17_40,
    /// Volleyball.
    Iab17_41,
    /// Walking.
    Iab17_42,
    /// Waterski/Wakeboard.
    Iab17_43,
    /// World Soccer.
    Iab17_44,
    /// Style & Fashion.
    Iab18,
    /// Beauty.
    Iab18_1,
    /// Body Art.
    Iab18_2,
    /// Fashion.
    Iab18_3,
    /// Jewelry.
    Iab18_4,
    /// Clothing.
    Iab18_5,
    /// Accessories.
    Iab18_6,
    /// Technology & Computing.
    Iab19,
    /// 3-D Graphics.
    Iab19_1,
    /// Animation.
    Iab19_2,
    /// Antivirus Software.
    Iab19_3,
    /// C/C++.
    Iab19_4,
    /// Cameras & Camcorders.
    Iab19_5,
    /// Cell Phones.
    Iab19_6,
    /// Computer Certification.
    Iab19_7,
    /// Computer Networking.
    Iab19_8,
    /// Computer Peripherals.
    Iab19_9,
    /// Computer Reviews.
    Iab19_10,
    /// Data Centers.
    Iab19_11,
    /// Databases.
    Iab19_12,
    /// Desktop Publishing.
    Iab19_13,
    /// Desktop Video.
    Iab19_14,
    /// Email.
    Iab19_15,
    /// Graphics Software.
    Iab19_16,
    /// Home Video/DVD.
    Iab19_17,
    /// Internet Technology.
    Iab19_18,
    /// Java.
    Iab19_19,
    /// Javascript.
    Iab19_20,
    /// Mac Support.
    Iab19_21,
    /// MP3/MIDI.
    Iab19_22,
    /// Net Conferencing.
    Iab19_23,
    /// Net for Beginners.
    Iab19_24,
    /// Network Security.
    Iab19_25,
    /// Palmtops/PDAs.
    Iab19_26,
    /// PC Support.
    Iab19_27,
    /// Portable.
    Iab19_28,
    /// Entertainment.
    Iab19_29,
    /// Shareware/Freeware.
    Iab19_30,
    /// Unix.
    Iab19_31,
    /// Visual Basic.
    Iab19_32,
    /// Web Clip Art.
    Iab19_33,
    /// Web Design/HTML.
    Iab19_34,
    /// Web Search.
    Iab19_35,
    /// Windows.
    Iab19_36,
    /// Travel.
    Iab20,
    /// Adventure Travel.
    Iab20_1,
    /// Africa.
    Iab20_2,
    /// Air Travel.
    Iab20_3,
    /// Australia & New Zealand.
    Iab20_4,
    /// Bed & Breakfasts.
    Iab20_5,
    /// Budget Travel.
    Iab20_6,
    /// Business Travel.
    Iab20_7,
    /// By US Locale.
    Iab20_8,
    /// Camping.
    Iab20_9,
    /// Canada.
    Iab20_10,
    /// Caribbean.
    Iab20_11,
    /// Cruises.
    Iab20_12,
    /// Eastern Europe.
    Iab20_13,
    /// Europe.
    Iab20_14,
    /// France.
    Iab20_15,
    /// Greece.
    Iab20_16,
    /// Honeymoons/Getaways.
    Iab20_17,
    /// Hotels.
    Iab20_18,
    /// Italy.
    Iab20_19,
    /// Japan.
    Iab20_20,
    /// Mexico & Central America.
    Iab20_21,
    /// National Parks.
    Iab20_22,
    /// South America.
    Iab20_23,
    /// Spas.
    Iab20_24,
    /// Theme Parks.
    Iab20_25,
    /// Traveling with Kids.
    Iab20_26,
    /// United Kingdom.
    Iab20_27,
    /// Real Estate.
    Iab21,
    /// Apartments.
    Iab21_1x,
    /// Architects.
    Iab21_2x,
    /// Buying/Selling Homes.
    Iab21_3x,
    /// Shopping.
    Iab22,
    /// Contests & Freebies.
    Iab22_1x,
    /// Couponing.
    Iab22_2x,
    /// Comparison.
    Iab22_3x,
    /// Engines.
    Iab22_4,
    /// Religion & Spirituality.
    Iab23,
    /// Alternative Religions.
    Iab23_1,
    /// Atheism/Agnosticism.
    Iab23_2,
    /// Buddhism.
    Iab23_3,
    /// Catholicism.
    Iab23_4,
    /// Christianity.
    Iab23_5,
    /// Hinduism.
    Iab23_6,
    /// Islam.
    Iab23_7,
    /// Judaism.
    Iab23_8,
    /// Latter-Day Saints.
    Iab23_9,
    /// Paga/Wiccan.
    Iab23_10,
    /// Uncategorized.
    Iab24,
    /// Non-Standard Content.
    Iab25,
    /// Unmoderated UGC.
    Iab25_1,
    /// Extreme Graphic/Explicit Violence.
    Iab25_2,
    /// Pornography.
    Iab25_3,
    /// Profane Content.
    Iab25_4,
    /// Hate Content.
    Iab25_5,
    /// Under Construction.
    Iab25_6,
    /// Incentivized.
    Iab25_7,
    /// Illegal Content.
    Iab26,
    /// Illegal Content.
    Iab26_1,
    /// Warez.
    Iab26_2,
    /// Spyware/Malware.
    Iab26_3,
    /// Copyright Infringement.
    Iab26_4,
}

impl ContentCategory {
    /// The display name of each member, as the protocol publishes it.
    pub open spec fn name_spec(self) -> Seq<char> {
        match self {
            ContentCategory::Undefined => "UNDEFINED"@,
            ContentCategory::Iab1 => "IAB1"@,
            ContentCategory::Iab1_1 => "IAB1-1"@,
            ContentCategory::Iab1_2 => "IAB1-2"@,
            ContentCategory::Iab1_3 => "IAB1-3"@,
            ContentCategory::Iab1_4 => "IAB1-4"@,
            ContentCategory::Iab1_5 => "IAB1-5"@,
            ContentCategory::Iab1_6 => "IAB1-6"@,
            ContentCategory::Iab1_7 => "IAB1-7"@,
            ContentCategory::Iab2 => "IAB2"@,
            ContentCategory::Iab2_1 => "IAB2-1"@,
            ContentCategory::Iab2_2 => "IAB2-2"@,
            ContentCategory::Iab2_3 => "IAB2-3"@,
            ContentCategory::Iab2_4 => "IAB2-4"@,
            ContentCategory::Iab2_5 => "IAB2-5"@,
            ContentCategory::Iab2_6 => "IAB2-6"@,
            ContentCategory::Iab2_7 => "IAB2-7"@,
            ContentCategory::Iab2_8 => "IAB2-8"@,
            ContentCategory::Iab2_9 => "IAB2-9"@,
            ContentCategory::Iab2_10 => "IAB2-10"@,
            ContentCategory::Iab2_11 => "IAB2-11"@,
            ContentCategory::Iab2_12 => "IAB2-12"@,
            ContentCategory::Iab2_13 => "IAB2-13"@,
            ContentCategory::Iab2_14 => "IAB2-14"@,
            ContentCategory::Iab2_15 => "IAB2-15"@,
            ContentCategory::Iab2_16 => "IAB2-16"@,
            ContentCategory::Iab2_17 => "IAB2-17"@,
            ContentCategory::Iab2_18 => "IAB2-18"@,
            ContentCategory::Iab2_19 => "IAB2-19"@,
            ContentCategory::Iab2_20 => "IAB2-20"@,
            ContentCategory::Iab2_21 => "IAB2-21"@,
            ContentCategory::Iab2_22 => "IAB2-22"@,
            ContentCategory::Iab2_23 => "IAB2-23"@,
            ContentCategory::Iab3 => "IAB3"@,
            ContentCategory::Iab3_1 => "IAB3-1"@,
            ContentCategory::Iab3_2 => "IAB3-2"@,
            ContentCategory::Iab3_3 => "IAB3-3"@,
            ContentCategory::Iab3_4 => "IAB3-4"@,
            ContentCategory::Iab3_5 => "IAB3-5"@,
            ContentCategory::Iab3_6 => "IAB3-6"@,
            ContentCategory::Iab3_7 => "IAB3-7"@,
            ContentCategory::Iab3_8 => "IAB3-8"@,
            ContentCategory::Iab3_9 => "IAB3-9"@,
            ContentCategory::Iab3_10 => "IAB3-10"@,
            ContentCategory::Iab3_11 => "IAB3-11"@,
            ContentCategory::Iab3_12 => "IAB3-12"@,
            ContentCategory::Iab4 => "IAB4"@,
            ContentCategory::Iab4_1 => "IAB4-1"@,
            ContentCategory::Iab4_2 => "IAB4-2"@,
            ContentCategory::Iab4_3 => "IAB4-3"@,
            ContentCategory::Iab4_4 => "IAB4-4"@,
            ContentCategory::Iab4_5 => "IAB4-5"@,
            ContentCategory::Iab4_6 => "IAB4-6"@,
            ContentCategory::Iab4_7 => "IAB4-7"@,
            ContentCategory::Iab4_8 => "IAB4-8"@,
            ContentCategory::Iab4_9 => "IAB4-9"@,
            ContentCategory::Iab4_10 => "IAB4-10"@,
            ContentCategory::Iab4_11 => "IAB4-11"@,
            ContentCategory::Iab5 => "IAB5"@,
            ContentCategory::Iab5_1 => "IAB5-1"@,
            ContentCategory::Iab5_2 => "IAB5-2"@,
            ContentCategory::Iab5_3 => "IAB5-3"@,
            ContentCategory::Iab5_4 => "IAB5-4"@,
            ContentCategory::Iab5_5 => "IAB5-5"@,
            ContentCategory::Iab5_6 => "IAB5-6"@,
            ContentCategory::Iab5_7 => "IAB5-7"@,
            ContentCategory::Iab5_8 => "IAB5-8"@,
            ContentCategory::Iab5_9 => "IAB5-9"@,
            ContentCategory::Iab5_10 => "IAB5-10"@,
            ContentCategory::Iab5_11 => "IAB5-11"@,
            ContentCategory::Iab5_12 => "IAB5-12"@,
            ContentCategory::Iab5_13 => "IAB5-13"@,
            ContentCategory::Iab5_14 => "IAB5-14"@,
            ContentCategory::Iab5_15 => "IAB5-15"@,
            ContentCategory::Iab6 => "IAB6"@,
            ContentCategory::Iab6_1 => "IAB6-1"@,
            ContentCategory::Iab6_2 => "IAB6-2"@,
            ContentCategory::Iab6_3 => "IAB6-3"@,
            ContentCategory::Iab6_4 => "IAB6-4"@,
            ContentCategory::Iab6_5 => "IAB6-5"@,
            ContentCategory::Iab6_6 => "IAB6-6"@,
            ContentCategory::Iab6_7 => "IAB6-7"@,
            ContentCategory::Iab6_8 => "IAB6-8"@,
            ContentCategory::Iab6_9 => "IAB6-9"@,
            ContentCategory::Iab7 => "IAB7"@,
            ContentCategory::Iab7_1 => "IAB7-1"@,
            ContentCategory::Iab7_2 => "IAB7-2"@,
            ContentCategory::Iab7_3 => "IAB7-3"@,
            ContentCategory::Iab7_4 => "IAB7-4"@,
            ContentCategory::Iab7_5 => "IAB7-5"@,
            ContentCategory::Iab7_6 => "IAB7-6"@,
            ContentCategory::Iab7_7 => "IAB7-7"@,
            ContentCategory::Iab7_8 => "IAB7-8"@,
            ContentCategory::Iab7_9 => "IAB7-9"@,
            ContentCategory::Iab7_10 => "IAB7-10"@,
            ContentCategory::Iab7_11 => "IAB7-11"@,
            ContentCategory::Iab7_12 => "IAB7-12"@,
            ContentCategory::Iab7_13 => "IAB7-13"@,
            ContentCategory::Iab7_14 => "IAB7-14"@,
            ContentCategory::Iab7_15 => "IAB7-15"@,
            ContentCategory::Iab7_16 => "IAB7-16"@,
            ContentCategory::Iab7_17 => "IAB7-17"@,
            ContentCategory::Iab7_18 => "IAB7-18"@,
            ContentCategory::Iab7_19 => "IAB7-19"@,
            ContentCategory::Iab7_20 => "IAB7-20"@,
            ContentCategory::Iab7_21 => "IAB7-21"@,
            ContentCategory::Iab7_22 => "IAB7-22"@,
            ContentCategory::Iab7_23 => "IAB7-23"@,
            ContentCategory::Iab7_24 => "IAB7-24"@,
            ContentCategory::Iab7_25 => "IAB7-25"@,
            ContentCategory::Iab7_26 => "IAB7-26"@,
            ContentCategory::Iab7_27 => "IAB7-27"@,
            ContentCategory::Iab7_28 => "IAB7-28"@,
            ContentCategory::Iab7_29 => "IAB7-29"@,
            ContentCategory::Iab7_30 => "IAB7-30"@,
            ContentCategory::Iab7_31 => "IAB7-31"@,
            ContentCategory::Iab7_32 => "IAB7-32"@,
            ContentCategory::Iab7_33 => "IAB7-33"@,
            ContentCategory::Iab7_34 => "IAB7-34"@,
            ContentCategory::Iab7_35 => "IAB7-35"@,
            ContentCategory::Iab7_36 => "IAB7-36"@,
            ContentCategory::Iab7_37 => "IAB7-37"@,
            ContentCategory::Iab7_38 => "IAB7-38"@,
            ContentCategory::Iab7_39 => "IAB7-39"@,
            ContentCategory::Iab7_40 => "IAB7-40"@,
            ContentCategory::Iab7_41 => "IAB7-41"@,
            ContentCategory::Iab7_42 => "IAB7-42"@,
            ContentCategory::Iab7_43 => "IAB7-43"@,
            ContentCategory::Iab7_44 => "IAB7-44"@,
            ContentCategory::Iab7_45 => "IAB7-45"@,
            ContentCategory::Iab8 => "IAB8"@,
            ContentCategory::Iab8_1 => "IAB8-1"@,
            ContentCategory::Iab8_2 => "IAB8-2"@,
            ContentCategory::Iab8_3 => "IAB8-3"@,
            ContentCategory::Iab8_4 => "IAB8-4"@,
            ContentCategory::Iab8_5 => "IAB8-5"@,
            ContentCategory::Iab8_6 => "IAB8-6"@,
            ContentCategory::Iab8_7 => "IAB8-7"@,
            ContentCategory::Iab8_8 => "IAB8-8"@,
            ContentCategory::Iab8_9 => "IAB8-9"@,
            ContentCategory::Iab8_10 => "IAB8-10"@,
            ContentCategory::Iab8_11 => "IAB8-11"@,
            ContentCategory::Iab8_12 => "IAB8-12"@,
            ContentCategory::Iab8_13 => "IAB8-13"@,
            ContentCategory::Iab8_14 => "IAB8-14"@,
            ContentCategory::Iab8_15 => "IAB8-15"@,
            ContentCategory::Iab8_16 => "IAB8-16"@,
            ContentCategory::Iab8_17 => "IAB8-17"@,
            ContentCategory::Iab8_18 => "IAB8-18"@,
            ContentCategory::Iab9 => "IAB9"@,
            ContentCategory::Iab9_1 => "IAB9-1"@,
            ContentCategory::Iab9_2 => "IAB9-2"@,
            ContentCategory::Iab9_3 => "IAB9-3"@,
            ContentCategory::Iab9_4 => "IAB9-4"@,
            ContentCategory::Iab9_5 => "IAB9-5"@,
            ContentCategory::Iab9_6 => "IAB9-6"@,
            ContentCategory::Iab9_7 => "IAB9-7"@,
            ContentCategory::Iab9_8 => "IAB9-8"@,
            ContentCategory::Iab9_9 => "IAB9-9"@,
            ContentCategory::Iab9_10 => "IAB9-10"@,
            ContentCategory::Iab9_11 => "IAB9-11"@,
            ContentCategory::Iab9_12 => "IAB9-12"@,
            ContentCategory::Iab9_13 => "IAB9-13"@,
            ContentCategory::Iab9_14 => "IAB9-14"@,
            ContentCategory::Iab9_15 => "IAB9-15"@,
            ContentCategory::Iab9_16 => "IAB9-16"@,
            ContentCategory::Iab9_17 => "IAB9-17"@,
            ContentCategory::Iab9_18 => "IAB9-18"@,
            ContentCategory::Iab9_19 => "IAB9-19"@,
            ContentCategory::Iab9_20 => "IAB9-20"@,
            ContentCategory::Iab9_21 => "IAB9-21"@,
            ContentCategory::Iab9_22 => "IAB9-22"@,
            ContentCategory::Iab9_23 => "IAB9-23"@,
            ContentCategory::Iab9_24 => "IAB9-24"@,
            ContentCategory::Iab9_25 => "IAB9-25"@,
            ContentCategory::Iab9_26 => "IAB9-26"@,
            ContentCategory::Iab9_27 => "IAB9-27"@,
            ContentCategory::Iab9_28 => "IAB9-28"@,
            ContentCategory::Iab9_29 => "IAB9-29"@,
            ContentCategory::Iab9_30 => "IAB9-30"@,
            ContentCategory::Iab9_31 => "IAB9-31"@,
            ContentCategory::Iab10 => "IAB10"@,
            ContentCategory::Iab10_1 => "IAB10-1"@,
            ContentCategory::Iab10_2 => "IAB10-2"@,
            ContentCategory::Iab10_3 => "IAB10-3"@,
            ContentCategory::Iab10_4 => "IAB10-4"@,
            ContentCategory::Iab10_5 => "IAB10-5"@,
            ContentCategory::Iab10_6 => "IAB10-6"@,
            ContentCategory::Iab10_7 => "IAB10-7"@,
            ContentCategory::Iab10_8 => "IAB10-8"@,
            ContentCategory::Iab10_9 => "IAB10-9"@,
            ContentCategory::Iab11 => "IAB11"@,
            ContentCategory::Iab11_1 => "IAB11-1"@,
            ContentCategory::Iab11_2 => "IAB11-2"@,
            ContentCategory::Iab11_3 => "IAB11-3"@,
            ContentCategory::Iab11_4 => "IAB11-4"@,
            ContentCategory::Iab11_5 => "IAB11-5"@,
            ContentCategory::Iab12 => "IAB12"@,
            ContentCategory::Iab12_1 => "IAB12-1"@,
            ContentCategory::Iab12_2 => "IAB12-2"@,
            ContentCategory::Iab12_3 => "IAB12-3"@,
            ContentCategory::Iab13 => "IAB13"@,
            ContentCategory::Iab13_1 => "IAB13-1"@,
            ContentCategory::Iab13_2 => "IAB13-2"@,
            ContentCategory::Iab13_3 => "IAB13-3"@,
            ContentCategory::Iab13_4 => "IAB13-4"@,
            ContentCategory::Iab13_5 => "IAB13-5"@,
            ContentCategory::Iab13_6 => "IAB13-6"@,
            ContentCategory::Iab13_7 => "IAB13-7"@,
            ContentCategory::Iab13_8 => "IAB13-8"@,
            ContentCategory::Iab13_9 => "IAB13-9"@,
            ContentCategory::Iab13_10 => "IAB13-10"@,
            ContentCategory::Iab13_11 => "IAB13-11"@,
            ContentCategory::Iab13_12 => "IAB13-12"@,
            ContentCategory::Iab14 => "IAB14"@,
            ContentCategory::Iab14_1 => "IAB14-1"@,
            ContentCategory::Iab14_2 => "IAB14-2"@,
            ContentCategory::Iab14_3 => "IAB14-3"@,
            ContentCategory::Iab14_4 => "IAB14-4"@,
            ContentCategory::Iab14_5 => "IAB14-5"@,
            ContentCategory::Iab14_6 => "IAB14-6"@,
            ContentCategory::Iab14_7 => "IAB14-7"@,
            ContentCategory::Iab14_8 => "IAB14-8"@,
            ContentCategory::Iab15 => "IAB15"@,
            ContentCategory::Iab15_1 => "IAB15-1"@,
            ContentCategory::Iab15_2 => "IAB15-2"@,
            ContentCategory::Iab15_3 => "IAB15-3"@,
            ContentCategory::Iab15_4 => "IAB15-4"@,
            ContentCategory::Iab15_5 => "IAB15-5"@,
            ContentCategory::Iab15_6 => "IAB15-6"@,
            ContentCategory::Iab15_7 => "IAB15-7"@,
            ContentCategory::Iab15_8 => "IAB15-8"@,
            ContentCategory::Iab15_9 => "IAB15-9"@,
            ContentCategory::Iab15_10 => "IAB15-10"@,
            ContentCategory::Iab16 => "IAB16"@,
            ContentCategory::Iab16_1 => "IAB16-1"@,
            ContentCategory::Iab16_2 => "IAB16-2"@,
            ContentCategory::Iab16_3 => "IAB16-3"@,
            ContentCategory::Iab16_4 => "IAB16-4"@,
            ContentCategory::Iab16_5 => "IAB16-5"@,
            ContentCategory::Iab16_6 => "IAB16-6"@,
            ContentCategory::Iab16_7 => "IAB16-7"@,
            ContentCategory::Iab17 => "IAB17"@,
            ContentCategory::Iab17_1 => "IAB17-1"@,
            ContentCategory::Iab17_2 => "IAB17-2"@,
            ContentCategory::Iab17_3 => "IAB17-3"@,
            ContentCategory::Iab17_4 => "IAB17-4"@,
            ContentCategory::Iab17_5 => "IAB17-5"@,
            ContentCategory::Iab17_6 => "IAB17-6"@,
            ContentCategory::Iab17_7 => "IAB17-7"@,
            ContentCategory::Iab17_8 => "IAB17-8"@,
            ContentCategory::Iab17_9 => "IAB17-9"@,
            ContentCategory::Iab17_10 => "IAB17-10"@,
            ContentCategory::Iab17_11 => "IAB17-11"@,
            ContentCategory::Iab17_12 => "IAB17-12"@,
            ContentCategory::Iab17_13 => "IAB17-13"@,
            ContentCategory::Iab17_14 => "IAB17-14"@,
            ContentCategory::Iab17_15 => "IAB17-15"@,
            ContentCategory::Iab17_16 => "IAB17-16"@,
            ContentCategory::Iab17_17 => "IAB17-17"@,
            ContentCategory::Iab17_18 => "IAB17-18"@,
            ContentCategory::Iab17_19 => "IAB17-19"@,
            ContentCategory::Iab17_20 => "IAB17-20"@,
            ContentCategory::Iab17_21 => "IAB17-21"@,
            ContentCategory::Iab17_22 => "IAB17-22"@,
            ContentCategory::Iab17_23 => "IAB17-23"@,
            ContentCategory::Iab17_24 => "IAB17-24"@,
            ContentCategory::Iab17_25 => "IAB17-25"@,
            ContentCategory::Iab17_26 => "IAB17-26"@,
            ContentCategory::Iab17_27 => "IAB17-27"@,
            ContentCategory::Iab17_28 => "IAB17-28"@,
            ContentCategory::Iab17_29 => "IAB17-29"@,
            ContentCategory::Iab17_30 => "IAB17-30"@,
            ContentCategory::Iab17_31 => "IAB17-31"@,
            ContentCategory::Iab17_32 => "IAB17-32"@,
            ContentCategory::Iab17_33 => "IAB17-33"@,
            ContentCategory::Iab17_34 => "IAB17-34"@,
            ContentCategory::Iab17_35 => "IAB17-35"@,
            ContentCategory::Iab17_36 => "IAB17-36"@,
            ContentCategory::Iab17_37 => "IAB17-37"@,
            ContentCategory::Iab17_38 => "IAB17-38"@,
            ContentCategory::Iab17_39 => "IAB17-39"@,
            ContentCategory::Iab17_40 => "IAB17-40"@,
            ContentCategory::Iab17_41 => "IAB17-41"@,
            ContentCategory::Iab17_42 => "IAB17-42"@,
            ContentCategory::Iab17_43 => "IAB17-43"@,
            ContentCategory::Iab17_44 => "IAB17-44"@,
            ContentCategory::Iab18 => "IAB18"@,
            ContentCategory::Iab18_1 => "IAB18-1"@,
            ContentCategory::Iab18_2 => "IAB18-2"@,
            ContentCategory::Iab18_3 => "IAB18-3"@,
            ContentCategory::Iab18_4 => "IAB18-4"@,
            ContentCategory::Iab18_5 => "IAB18-5"@,
            ContentCategory::Iab18_6 => "IAB18-6"@,
            ContentCategory::Iab19 => "IAB19"@,
            ContentCategory::Iab19_1 => "IAB19-1"@,
            ContentCategory::Iab19_2 => "IAB19-2"@,
            ContentCategory::Iab19_3 => "IAB19-3"@,
            ContentCategory::Iab19_4 => "IAB19-4"@,
            ContentCategory::Iab19_5 => "IAB19-5"@,
            ContentCategory::Iab19_6 => "IAB19-6"@,
            ContentCategory::Iab19_7 => "IAB19-7"@,
            ContentCategory::Iab19_8 => "IAB19-8"@,
            ContentCategory::Iab19_9 => "IAB19-9"@,
            ContentCategory::Iab19_10 => "IAB19-10"@,
            ContentCategory::Iab19_11 => "IAB19-11"@,
            ContentCategory::Iab19_12 => "IAB19-12"@,
            ContentCategory::Iab19_13 => "IAB19-13"@,
            ContentCategory::Iab19_14 => "IAB19-14"@,
            ContentCategory::Iab19_15 => "IAB19-15"@,
            ContentCategory::Iab19_16 => "IAB19-16"@,
            ContentCategory::Iab19_17 => "IAB19-17"@,
            ContentCategory::Iab19_18 => "IAB19-18"@,
            ContentCategory::Iab19_19 => "IAB19-19"@,
            ContentCategory::Iab19_20 => "IAB19-20"@,
            ContentCategory::Iab19_21 => "IAB19-21"@,
            ContentCategory::Iab19_22 => "IAB19-22"@,
            ContentCategory::Iab19_23 => "IAB19-23"@,
            ContentCategory::Iab19_24 => "IAB19-24"@,
            ContentCategory::Iab19_25 => "IAB19-25"@,
            ContentCategory::Iab19_26 => "IAB19-26"@,
            ContentCategory::Iab19_27 => "IAB19-27"@,
            ContentCategory::Iab19_28 => "IAB19-28"@,
            ContentCategory::Iab19_29 => "IAB19-29"@,
            ContentCategory::Iab19_30 => "IAB19-30"@,
            ContentCategory::Iab19_31 => "IAB19-31"@,
            ContentCategory::Iab19_32 => "IAB19-32"@,
            ContentCategory::Iab19_33 => "IAB19-33"@,
            ContentCategory::Iab19_34 => "IAB19-34"@,
            ContentCategory::Iab19_35 => "IAB19-35"@,
            ContentCategory::Iab19_36 => "IAB19-36"@,
            ContentCategory::Iab20 => "IAB20"@,
            ContentCategory::Iab20_1 => "IAB20-1"@,
            ContentCategory::Iab20_2 => "IAB20-2"@,
            ContentCategory::Iab20_3 => "IAB20-3"@,
            ContentCategory::Iab20_4 => "IAB20-4"@,
            ContentCategory::Iab20_5 => "IAB20-5"@,
            ContentCategory::Iab20_6 => "IAB20-6"@,
            ContentCategory::Iab20_7 => "IAB20-7"@,
            ContentCategory::Iab20_8 => "IAB20-8"@,
            ContentCategory::Iab20_9 => "IAB20-9"@,
            ContentCategory::Iab20_10 => "IAB20-10"@,
            ContentCategory::Iab20_11 => "IAB20-11"@,
            ContentCategory::Iab20_12 => "IAB20-12"@,
            ContentCategory::Iab20_13 => "IAB20-13"@,
            ContentCategory::Iab20_14 => "IAB20-14"@,
            ContentCategory::Iab20_15 => "IAB20-15"@,
            ContentCategory::Iab20_16 => "IAB20-16"@,
            ContentCategory::Iab20_17 => "IAB20-17"@,
            ContentCategory::Iab20_18 => "IAB20-18"@,
            ContentCategory::Iab20_19 => "IAB20-19"@,
            ContentCategory::Iab20_20 => "IAB20-20"@,
            ContentCategory::Iab20_21 => "IAB20-21"@,
            ContentCategory::Iab20_22 => "IAB20-22"@,
            ContentCategory::Iab20_23 => "IAB20-23"@,
            ContentCategory::Iab20_24 => "IAB20-24"@,
            ContentCategory::Iab20_25 => "IAB20-25"@,
            ContentCategory::Iab20_26 => "IAB20-26"@,
            ContentCategory::Iab20_27 => "IAB20-27"@,
            ContentCategory::Iab21 => "IAB21"@,
            ContentCategory::Iab21_1x => "IAB21-1"@,
            ContentCategory::Iab21_2x => "IAB21-2"@,
            ContentCategory::Iab21_3x => "IAB21-3"@,
            ContentCategory::Iab22 => "IAB22"@,
            ContentCategory::Iab22_1x => "IAB22-1"@,
            ContentCategory::Iab22_2x => "IAB22-2"@,
            ContentCategory::Iab22_3x => "IAB22-3"@,
            ContentCategory::Iab22_4 => "IAB22-4"@,
            ContentCategory::Iab23 => "IAB23"@,
            ContentCategory::Iab23_1 => "IAB23-1"@,
            ContentCategory::Iab23_2 => "IAB23-2"@,
            ContentCategory::Iab23_3 => "IAB23-3"@,
            ContentCategory::Iab23_4 => "IAB23-4"@,
            ContentCategory::Iab23_5 => "IAB23-5"@,
            ContentCategory::Iab23_6 => "IAB23-6"@,
            ContentCategory::Iab23_7 => "IAB23-7"@,
            ContentCategory::Iab23_8 => "IAB23-8"@,
            ContentCategory::Iab23_9 => "IAB23-9"@,
            ContentCategory::Iab23_10 => "IAB23-10"@,
            ContentCategory::Iab24 => "IAB24"@,
            ContentCategory::Iab25 => "IAB25"@,
            ContentCategory::Iab25_1 => "IAB25-1"@,
            ContentCategory::Iab25_2 => "IAB25-2"@,
            ContentCategory::Iab25_3 => "IAB25-3"@,
            ContentCategory::Iab25_4 => "IAB25-4"@,
            ContentCategory::Iab25_5 => "IAB25-5"@,
            ContentCategory::Iab25_6 => "IAB25-6"@,
            ContentCategory::Iab25_7 => "IAB25-7"@,
            ContentCategory::Iab26 => "IAB26"@,
            ContentCategory::Iab26_1 => "IAB26-1"@,
            ContentCategory::Iab26_2 => "IAB26-2"@,
            ContentCategory::Iab26_3 => "IAB26-3"@,
            ContentCategory::Iab26_4 => "IAB26-4"@,
        }
    }

    /// The display name of this member. It is meant for logs and diagnostics and
    /// never travels on the wire.
    pub fn as_str_name(&self) -> (name: &'static str)
        ensures
            name@ == self.name_spec(),
    {
        match self {
            ContentCategory::Undefined => "UNDEFINED",
            ContentCategory::Iab1 => "IAB1",
            ContentCategory::Iab1_1 => "IAB1-1",
            ContentCategory::Iab1_2 => "IAB1-2",
            ContentCategory::Iab1_3 => "IAB1-3",
            ContentCategory::Iab1_4 => "IAB1-4",
            ContentCategory::Iab1_5 => "IAB1-5",
            ContentCategory::Iab1_6 => "IAB1-6",
            ContentCategory::Iab1_7 => "IAB1-7",
            ContentCategory::Iab2 => "IAB2",
            ContentCategory::Iab2_1 => "IAB2-1",
            ContentCategory::Iab2_2 => "IAB2-2",
            ContentCategory::Iab2_3 => "IAB2-3",
            ContentCategory::Iab2_4 => "IAB2-4",
            ContentCategory::Iab2_5 => "IAB2-5",
            ContentCategory::Iab2_6 => "IAB2-6",
            ContentCategory::Iab2_7 => "IAB2-7",
            ContentCategory::Iab2_8 => "IAB2-8",
            ContentCategory::Iab2_9 => "IAB2-9",
            ContentCategory::Iab2_10 => "IAB2-10",
            ContentCategory::Iab2_11 => "IAB2-11",
            ContentCategory::Iab2_12 => "IAB2-12",
            ContentCategory::Iab2_13 => "IAB2-13",
            ContentCategory::Iab2_14 => "IAB2-14",
            ContentCategory::Iab2_15 => "IAB2-15",
            ContentCategory::Iab2_16 => "IAB2-16",
            ContentCategory::Iab2_17 => "IAB2-17",
            ContentCategory::Iab2_18 => "IAB2-18",
            ContentCategory::Iab2_19 => "IAB2-19",
            ContentCategory::Iab2_20 => "IAB2-20",
            ContentCategory::Iab2_21 => "IAB2-21",
            ContentCategory::Iab2_22 => "IAB2-22",
            ContentCategory::Iab2_23 => "IAB2-23",
            ContentCategory::Iab3 => "IAB3",
            ContentCategory::Iab3_1 => "IAB3-1",
            ContentCategory::Iab3_2 => "IAB3-2",
            ContentCategory::Iab3_3 => "IAB3-3",
            ContentCategory::Iab3_4 => "IAB3-4",
            ContentCategory::Iab3_5 => "IAB3-5",
            ContentCategory::Iab3_6 => "IAB3-6",
            ContentCategory::Iab3_7 => "IAB3-7",
            ContentCategory::Iab3_8 => "IAB3-8",
            ContentCategory::Iab3_9 => "IAB3-9",
            ContentCategory::Iab3_10 => "IAB3-10",
            ContentCategory::Iab3_11 => "IAB3-11",
            ContentCategory::Iab3_12 => "IAB3-12",
            ContentCategory::Iab4 => "IAB4",
            ContentCategory::Iab4_1 => "IAB4-1",
            ContentCategory::Iab4_2 => "IAB4-2",
            ContentCategory::Iab4_3 => "IAB4-3",
            ContentCategory::Iab4_4 => "IAB4-4",
            ContentCategory::Iab4_5 => "IAB4-5",
            ContentCategory::Iab4_6 => "IAB4-6",
            ContentCategory::Iab4_7 => "IAB4-7",
            ContentCategory::Iab4_8 => "IAB4-8",
            ContentCategory::Iab4_9 => "IAB4-9",
            ContentCategory::Iab4_10 => "IAB4-10",
            ContentCategory::Iab4_11 => "IAB4-11",
            ContentCategory::Iab5 => "IAB5",
            ContentCategory::Iab5_1 => "IAB5-1",
            ContentCategory::Iab5_2 => "IAB5-2",
            ContentCategory::Iab5_3 => "IAB5-3",
            ContentCategory::Iab5_4 => "IAB5-4",
            ContentCategory::Iab5_5 => "IAB5-5",
            ContentCategory::Iab5_6 => "IAB5-6",
            ContentCategory::Iab5_7 => "IAB5-7",
            ContentCategory::Iab5_8 => "IAB5-8",
            ContentCategory::Iab5_9 => "IAB5-9",
            ContentCategory::Iab5_10 => "IAB5-10",
            ContentCategory::Iab5_11 => "IAB5-11",
            ContentCategory::Iab5_12 => "IAB5-12",
            ContentCategory::Iab5_13 => "IAB5-13",
            ContentCategory::Iab5_14 => "IAB5-14",
            ContentCategory::Iab5_15 => "IAB5-15",
            ContentCategory::Iab6 => "IAB6",
            ContentCategory::Iab6_1 => "IAB6-1",
            ContentCategory::Iab6_2 => "IAB6-2",
            ContentCategory::Iab6_3 => "IAB6-3",
            ContentCategory::Iab6_4 => "IAB6-4",
            ContentCategory::Iab6_5 => "IAB6-5",
            ContentCategory::Iab6_6 => "IAB6-6",
            ContentCategory::Iab6_7 => "IAB6-7",
            ContentCategory::Iab6_8 => "IAB6-8",
            ContentCategory::Iab6_9 => "IAB6-9",
            ContentCategory::Iab7 => "IAB7",
            ContentCategory::Iab7_1 => "IAB7-1",
            ContentCategory::Iab7_2 => "IAB7-2",
            ContentCategory::Iab7_3 => "IAB7-3",
            ContentCategory::Iab7_4 => "IAB7-4",
            ContentCategory::Iab7_5 => "IAB7-5",
            ContentCategory::Iab7_6 => "IAB7-6",
            ContentCategory::Iab7_7 => "IAB7-7",
            ContentCategory::Iab7_8 => "IAB7-8",
            ContentCategory::Iab7_9 => "IAB7-9",
            ContentCategory::Iab7_10 => "IAB7-10",
            ContentCategory::Iab7_11 => "IAB7-11",
            ContentCategory::Iab7_12 => "IAB7-12",
            ContentCategory::Iab7_13 => "IAB7-13",
            ContentCategory::Iab7_14 => "IAB7-14",
            ContentCategory::Iab7_15 => "IAB7-15",
            ContentCategory::Iab7_16 => "IAB7-16",
            ContentCategory::Iab7_17 => "IAB7-17",
            ContentCategory::Iab7_18 => "IAB7-18",
            ContentCategory::Iab7_19 => "IAB7-19",
            ContentCategory::Iab7_20 => "IAB7-20",
            ContentCategory::Iab7_21 => "IAB7-21",
            ContentCategory::Iab7_22 => "IAB7-22",
            ContentCategory::Iab7_23 => "IAB7-23",
            ContentCategory::Iab7_24 => "IAB7-24",
            ContentCategory::Iab7_25 => "IAB7-25",
            ContentCategory::Iab7_26 => "IAB7-26",
            ContentCategory::Iab7_27 => "IAB7-27",
            ContentCategory::Iab7_28 => "IAB7-28",
            ContentCategory::Iab7_29 => "IAB7-29",
            ContentCategory::Iab7_30 => "IAB7-30",
            ContentCategory::Iab7_31 => "IAB7-31",
            ContentCategory::Iab7_32 => "IAB7-32",
            ContentCategory::Iab7_33 => "IAB7-33",
            ContentCategory::Iab7_34 => "IAB7-34",
            ContentCategory::Iab7_35 => "IAB7-35",
            ContentCategory::Iab7_36 => "IAB7-36",
            ContentCategory::Iab7_37 => "IAB7-37",
            ContentCategory::Iab7_38 => "IAB7-38",
            ContentCategory::Iab7_39 => "IAB7-39",
            ContentCategory::Iab7_40 => "IAB7-40",
            ContentCategory::Iab7_41 => "IAB7-41",
            ContentCategory::Iab7_42 => "IAB7-42",
            ContentCategory::Iab7_43 => "IAB7-43",
            ContentCategory::Iab7_44 => "IAB7-44",
            ContentCategory::Iab7_45 => "IAB7-45",
            ContentCategory::Iab8 => "IAB8",
            ContentCategory::Iab8_1 => "IAB8-1",
            ContentCategory::Iab8_2 => "IAB8-2",
            ContentCategory::Iab8_3 => "IAB8-3",
            ContentCategory::Iab8_4 => "IAB8-4",
            ContentCategory::Iab8_5 => "IAB8-5",
            ContentCategory::Iab8_6 => "IAB8-6",
            ContentCategory::Iab8_7 => "IAB8-7",
            ContentCategory::Iab8_8 => "IAB8-8",
            ContentCategory::Iab8_9 => "IAB8-9",
            ContentCategory::Iab8_10 => "IAB8-10",
            ContentCategory::Iab8_11 => "IAB8-11",
            ContentCategory::Iab8_12 => "IAB8-12",
            ContentCategory::Iab8_13 => "IAB8-13",
            ContentCategory::Iab8_14 => "IAB8-14",
            ContentCategory::Iab8_15 => "IAB8-15",
            ContentCategory::Iab8_16 => "IAB8-16",
            ContentCategory::Iab8_17 => "IAB8-17",
            ContentCategory::Iab8_18 => "IAB8-18",
            ContentCategory::Iab9 => "IAB9",
            ContentCategory::Iab9_1 => "IAB9-1",
            ContentCategory::Iab9_2 => "IAB9-2",
            ContentCategory::Iab9_3 => "IAB9-3",
            ContentCategory::Iab9_4 => "IAB9-4",
            ContentCategory::Iab9_5 => "IAB9-5",
            ContentCategory::Iab9_6 => "IAB9-6",
            ContentCategory::Iab9_7 => "IAB9-7",
            ContentCategory::Iab9_8 => "IAB9-8",
            ContentCategory::Iab9_9 => "IAB9-9",
            ContentCategory::Iab9_10 => "IAB9-10",
            ContentCategory::Iab9_11 => "IAB9-11",
            ContentCategory::Iab9_12 => "IAB9-12",
            ContentCategory::Iab9_13 => "IAB9-13",
            ContentCategory::Iab9_14 => "IAB9-14",
            ContentCategory::Iab9_15 => "IAB9-15",
            ContentCategory::Iab9_16 => "IAB9-16",
            ContentCategory::Iab9_17 => "IAB9-17",
            ContentCategory::Iab9_18 => "IAB9-18",
            ContentCategory::Iab9_19 => "IAB9-19",
            ContentCategory::Iab9_20 => "IAB9-20",
            ContentCategory::Iab9_21 => "IAB9-21",
            ContentCategory::Iab9_22 => "IAB9-22",
            ContentCategory::Iab9_23 => "IAB9-23",
            ContentCategory::Iab9_24 => "IAB9-24",
            ContentCategory::Iab9_25 => "IAB9-25",
            ContentCategory::Iab9_26 => "IAB9-26",
            ContentCategory::Iab9_27 => "IAB9-27",
            ContentCategory::Iab9_28 => "IAB9-28",
            ContentCategory::Iab9_29 => "IAB9-29",
            ContentCategory::Iab9_30 => "IAB9-30",
            ContentCategory::Iab9_31 => "IAB9-31",
            ContentCategory::Iab10 => "IAB10",
            ContentCategory::Iab10_1 => "IAB10-1",
            ContentCategory::Iab10_2 => "IAB10-2",
            ContentCategory::Iab10_3 => "IAB10-3",
            ContentCategory::Iab10_4 => "IAB10-4",
            ContentCategory::Iab10_5 => "IAB10-5",
            ContentCategory::Iab10_6 => "IAB10-6",
            ContentCategory::Iab10_7 => "IAB10-7",
            ContentCategory::Iab10_8 => "IAB10-8",
            ContentCategory::Iab10_9 => "IAB10-9",
            ContentCategory::Iab11 => "IAB11",
            ContentCategory::Iab11_1 => "IAB11-1",
            ContentCategory::Iab11_2 => "IAB11-2",
            ContentCategory::Iab11_3 => "IAB11-3",
            ContentCategory::Iab11_4 => "IAB11-4",
            ContentCategory::Iab11_5 => "IAB11-5",
            ContentCategory::Iab12 => "IAB12",
            ContentCategory::Iab12_1 => "IAB12-1",
            ContentCategory::Iab12_2 => "IAB12-2",
            ContentCategory::Iab12_3 => "IAB12-3",
            ContentCategory::Iab13 => "IAB13",
            ContentCategory::Iab13_1 => "IAB13-1",
            ContentCategory::Iab13_2 => "IAB13-2",
            ContentCategory::Iab13_3 => "IAB13-3",
            ContentCategory::Iab13_4 => "IAB13-4",
            ContentCategory::Iab13_5 => "IAB13-5",
            ContentCategory::Iab13_6 => "IAB13-6",
            ContentCategory::Iab13_7 => "IAB13-7",
            ContentCategory::Iab13_8 => "IAB13-8",
            ContentCategory::Iab13_9 => "IAB13-9",
            ContentCategory::Iab13_10 => "IAB13-10",
            ContentCategory::Iab13_11 => "IAB13-11",
            ContentCategory::Iab13_12 => "IAB13-12",
            ContentCategory::Iab14 => "IAB14",
            ContentCategory::Iab14_1 => "IAB14-1",
            ContentCategory::Iab14_2 => "IAB14-2",
            ContentCategory::Iab14_3 => "IAB14-3",
            ContentCategory::Iab14_4 => "IAB14-4",
            ContentCategory::Iab14_5 => "IAB14-5",
            ContentCategory::Iab14_6 => "IAB14-6",
            ContentCategory::Iab14_7 => "IAB14-7",
            ContentCategory::Iab14_8 => "IAB14-8",
            ContentCategory::Iab15 => "IAB15",
            ContentCategory::Iab15_1 => "IAB15-1",
            ContentCategory::Iab15_2 => "IAB15-2",
            ContentCategory::Iab15_3 => "IAB15-3",
            ContentCategory::Iab15_4 => "IAB15-4",
            ContentCategory::Iab15_5 => "IAB15-5",
            ContentCategory::Iab15_6 => "IAB15-6",
            ContentCategory::Iab15_7 => "IAB15-7",
            ContentCategory::Iab15_8 => "IAB15-8",
            ContentCategory::Iab15_9 => "IAB15-9",
            ContentCategory::Iab15_10 => "IAB15-10",
            ContentCategory::Iab16 => "IAB16",
            ContentCategory::Iab16_1 => "IAB16-1",
            ContentCategory::Iab16_2 => "IAB16-2",
            ContentCategory::Iab16_3 => "IAB16-3",
            ContentCategory::Iab16_4 => "IAB16-4",
            ContentCategory::Iab16_5 => "IAB16-5",
            ContentCategory::Iab16_6 => "IAB16-6",
            ContentCategory::Iab16_7 => "IAB16-7",
            ContentCategory::Iab17 => "IAB17",
            ContentCategory::Iab17_1 => "IAB17-1",
            ContentCategory::Iab17_2 => "IAB17-2",
            ContentCategory::Iab17_3 => "IAB17-3",
            ContentCategory::Iab17_4 => "IAB17-4",
            ContentCategory::Iab17_5 => "IAB17-5",
            ContentCategory::Iab17_6 => "IAB17-6",
            ContentCategory::Iab17_7 => "IAB17-7",
            ContentCategory::Iab17_8 => "IAB17-8",
            ContentCategory::Iab17_9 => "IAB17-9",
            ContentCategory::Iab17_10 => "IAB17-10",
            ContentCategory::Iab17_11 => "IAB17-11",
            ContentCategory::Iab17_12 => "IAB17-12",
            ContentCategory::Iab17_13 => "IAB17-13",
            ContentCategory::Iab17_14 => "IAB17-14",
            ContentCategory::Iab17_15 => "IAB17-15",
            ContentCategory::Iab17_16 => "IAB17-16",
            ContentCategory::Iab17_17 => "IAB17-17",
            ContentCategory::Iab17_18 => "IAB17-18",
            ContentCategory::Iab17_19 => "IAB17-19",
            ContentCategory::Iab17_20 => "IAB17-20",
            ContentCategory::Iab17_21 => "IAB17-21",
            ContentCategory::Iab17_22 => "IAB17-22",
            ContentCategory::Iab17_23 => "IAB17-23",
            ContentCategory::Iab17_24 => "IAB17-24",
            ContentCategory::Iab17_25 => "IAB17-25",
            ContentCategory::Iab17_26 => "IAB17-26",
            ContentCategory::Iab17_27 => "IAB17-27",
            ContentCategory::Iab17_28 => "IAB17-28",
            ContentCategory::Iab17_29 => "IAB17-29",
            ContentCategory::Iab17_30 => "IAB17-30",
            ContentCategory::Iab17_31 => "IAB17-31",
            ContentCategory::Iab17_32 => "IAB17-32",
            ContentCategory::Iab17_33 => "IAB17-33",
            ContentCategory::Iab17_34 => "IAB17-34",
            ContentCategory::Iab17_35 => "IAB17-35",
            ContentCategory::Iab17_36 => "IAB17-36",
            ContentCategory::Iab17_37 => "IAB17-37",
            ContentCategory::Iab17_38 => "IAB17-38",
            ContentCategory::Iab17_39 => "IAB17-39",
            ContentCategory::Iab17_40 => "IAB17-40",
            ContentCategory::Iab17_41 => "IAB17-41",
            ContentCategory::Iab17_42 => "IAB17-42",
            ContentCategory::Iab17_43 => "IAB17-43",
            ContentCategory::Iab17_44 => "IAB17-44",
            ContentCategory::Iab18 => "IAB18",
            ContentCategory::Iab18_1 => "IAB18-1",
            ContentCategory::Iab18_2 => "IAB18-2",
            ContentCategory::Iab18_3 => "IAB18-3",
            ContentCategory::Iab18_4 => "IAB18-4",
            ContentCategory::Iab18_5 => "IAB18-5",
            ContentCategory::Iab18_6 => "IAB18-6",
            ContentCategory::Iab19 => "IAB19",
            ContentCategory::Iab19_1 => "IAB19-1",
            ContentCategory::Iab19_2 => "IAB19-2",
            ContentCategory::Iab19_3 => "IAB19-3",
            ContentCategory::Iab19_4 => "IAB19-4",
            ContentCategory::Iab19_5 => "IAB19-5",
            ContentCategory::Iab19_6 => "IAB19-6",
            ContentCategory::Iab19_7 => "IAB19-7",
            ContentCategory::Iab19_8 => "IAB19-8",
            ContentCategory::Iab19_9 => "IAB19-9",
            ContentCategory::Iab19_10 => "IAB19-10",
            ContentCategory::Iab19_11 => "IAB19-11",
            ContentCategory::Iab19_12 => "IAB19-12",
            ContentCategory::Iab19_13 => "IAB19-13",
            ContentCategory::Iab19_14 => "IAB19-14",
            ContentCategory::Iab19_15 => "IAB19-15",
            ContentCategory::Iab19_16 => "IAB19-16",
            ContentCategory::Iab19_17 => "IAB19-17",
            ContentCategory::Iab19_18 => "IAB19-18",
            ContentCategory::Iab19_19 => "IAB19-19",
            ContentCategory::Iab19_20 => "IAB19-20",
            ContentCategory::Iab19_21 => "IAB19-21",
            ContentCategory::Iab19_22 => "IAB19-22",
            ContentCategory::Iab19_23 => "IAB19-23",
            ContentCategory::Iab19_24 => "IAB19-24",
            ContentCategory::Iab19_25 => "IAB19-25",
            ContentCategory::Iab19_26 => "IAB19-26",
            ContentCategory::Iab19_27 => "IAB19-27",
            ContentCategory::Iab19_28 => "IAB19-28",
            ContentCategory::Iab19_29 => "IAB19-29",
            ContentCategory::Iab19_30 => "IAB19-30",
            ContentCategory::Iab19_31 => "IAB19-31",
            ContentCategory::Iab19_32 => "IAB19-32",
            ContentCategory::Iab19_33 => "IAB19-33",
            ContentCategory::Iab19_34 => "IAB19-34",
            ContentCategory::Iab19_35 => "IAB19-35",
            ContentCategory::Iab19_36 => "IAB19-36",
            ContentCategory::Iab20 => "IAB20",
            ContentCategory::Iab20_1 => "IAB20-1",
            ContentCategory::Iab20_2 => "IAB20-2",
            ContentCategory::Iab20_3 => "IAB20-3",
            ContentCategory::Iab20_4 => "IAB20-4",
            ContentCategory::Iab20_5 => "IAB20-5",
            ContentCategory::Iab20_6 => "IAB20-6",
            ContentCategory::Iab20_7 => "IAB20-7",
            ContentCategory::Iab20_8 => "IAB20-8",
            ContentCategory::Iab20_9 => "IAB20-9",
            ContentCategory::Iab20_10 => "IAB20-10",
            ContentCategory::Iab20_11 => "IAB20-11",
            ContentCategory::Iab20_12 => "IAB20-12",
            ContentCategory::Iab20_13 => "IAB20-13",
            ContentCategory::Iab20_14 => "IAB20-14",
            ContentCategory::Iab20_15 => "IAB20-15",
            ContentCategory::Iab20_16 => "IAB20-16",
            ContentCategory::Iab20_17 => "IAB20-17",
            ContentCategory::Iab20_18 => "IAB20-18",
            ContentCategory::Iab20_19 => "IAB20-19",
            ContentCategory::Iab20_20 => "IAB20-20",
            ContentCategory::Iab20_21 => "IAB20-21",
            ContentCategory::Iab20_22 => "IAB20-22",
            ContentCategory::Iab20_23 => "IAB20-23",
            ContentCategory::Iab20_24 => "IAB20-24",
            ContentCategory::Iab20_25 => "IAB20-25",
            ContentCategory::Iab20_26 => "IAB20-26",
            ContentCategory::Iab20_27 => "IAB20-27",
            ContentCategory::Iab21 => "IAB21",
            ContentCategory::Iab21_1x => "IAB21-1",
            ContentCategory::Iab21_2x => "IAB21-2",
            ContentCategory::Iab21_3x => "IAB21-3",
            ContentCategory::Iab22 => "IAB22",
            ContentCategory::Iab22_1x => "IAB22-1",
            ContentCategory::Iab22_2x => "IAB22-2",
            ContentCategory::Iab22_3x => "IAB22-3",
            ContentCategory::Iab22_4 => "IAB22-4",
            ContentCategory::Iab23 => "IAB23",
            ContentCategory::Iab23_1 => "IAB23-1",
            ContentCategory::Iab23_2 => "IAB23-2",
            ContentCategory::Iab23_3 => "IAB23-3",
            ContentCategory::Iab23_4 => "IAB23-4",
            ContentCategory::Iab23_5 => "IAB23-5",
            ContentCategory::Iab23_6 => "IAB23-6",
            ContentCategory::Iab23_7 => "IAB23-7",
            ContentCategory::Iab23_8 => "IAB23-8",
            ContentCategory::Iab23_9 => "IAB23-9",
            ContentCategory::Iab23_10 => "IAB23-10",
            ContentCategory::Iab24 => "IAB24",
            ContentCategory::Iab25 => "IAB25",
            ContentCategory::Iab25_1 => "IAB25-1",
            ContentCategory::Iab25_2 => "IAB25-2",
            ContentCategory::Iab25_3 => "IAB25-3",
            ContentCategory::Iab25_4 => "IAB25-4",
            ContentCategory::Iab25_5 => "IAB25-5",
            ContentCategory::Iab25_6 => "IAB25-6",
            ContentCategory::Iab25_7 => "IAB25-7",
            ContentCategory::Iab26 => "IAB26",
            ContentCategory::Iab26_1 => "IAB26-1",
            ContentCategory::Iab26_2 => "IAB26-2",
            ContentCategory::Iab26_3 => "IAB26-3",
            ContentCategory::Iab26_4 => "IAB26-4",
        }
    }
}

impl DeepView for ContentCategory {
    type V = ContentCategory;

    open spec fn deep_view(&self) -> ContentCategory {
        *self
    }
}

impl Vocabulary for ContentCategory {
    open spec fn code_spec(self) -> int {
        match self {
            ContentCategory::Undefined => 0,
            ContentCategory::Iab1 => 1,
            ContentCategory::Iab1_1 => 2,
            ContentCategory::Iab1_2 => 3,
            ContentCategory::Iab1_3 => 4,
            ContentCategory::Iab1_4 => 5,
            ContentCategory::Iab1_5 => 6,
            ContentCategory::Iab1_6 => 7,
            ContentCategory::Iab1_7 => 8,
            ContentCategory::Iab2 => 9,
            ContentCategory::Iab2_1 => 10,
            ContentCategory::Iab2_2 => 11,
            ContentCategory::Iab2_3 => 12,
            ContentCategory::Iab2_4 => 13,
            ContentCategory::Iab2_5 => 14,
            ContentCategory::Iab2_6 => 15,
            ContentCategory::Iab2_7 => 16,
            ContentCategory::Iab2_8 => 17,
            ContentCategory::Iab2_9 => 18,
            ContentCategory::Iab2_10 => 19,
            ContentCategory::Iab2_11 => 20,
            ContentCategory::Iab2_12 => 21,
            ContentCategory::Iab2_13 => 22,
            ContentCategory::Iab2_14 => 23,
            ContentCategory::Iab2_15 => 24,
            ContentCategory::Iab2_16 => 25,
            ContentCategory::Iab2_17 => 26,
            ContentCategory::Iab2_18 => 27,
            ContentCategory::Iab2_19 => 28,
            ContentCategory::Iab2_20 => 29,
            ContentCategory::Iab2_21 => 30,
            ContentCategory::Iab2_22 => 31,
            ContentCategory::Iab2_23 => 32,
            ContentCategory::Iab3 => 33,
            ContentCategory::Iab3_1 => 34,
            ContentCategory::Iab3_2 => 35,
            ContentCategory::Iab3_3 => 36,
            ContentCategory::Iab3_4 => 37,
            ContentCategory::Iab3_5 => 38,
            ContentCategory::Iab3_6 => 39,
            ContentCategory::Iab3_7 => 40,
            ContentCategory::Iab3_8 => 41,
            ContentCategory::Iab3_9 => 42,
            ContentCategory::Iab3_10 => 43,
            ContentCategory::Iab3_11 => 44,
            ContentCategory::Iab3_12 => 45,
            ContentCategory::Iab4 => 46,
            ContentCategory::Iab4_1 => 47,
            ContentCategory::Iab4_2 => 48,
            ContentCategory::Iab4_3 => 49,
            ContentCategory::Iab4_4 => 50,
            ContentCategory::Iab4_5 => 51,
            ContentCategory::Iab4_6 => 52,
            ContentCategory::Iab4_7 => 53,
            ContentCategory::Iab4_8 => 54,
            ContentCategory::Iab4_9 => 55,
            ContentCategory::Iab4_10 => 56,
            ContentCategory::Iab4_11 => 57,
            ContentCategory::Iab5 => 58,
            ContentCategory::Iab5_1 => 59,
            ContentCategory::Iab5_2 => 60,
            ContentCategory::Iab5_3 => 61,
            ContentCategory::Iab5_4 => 62,
            ContentCategory::Iab5_5 => 63,
            ContentCategory::Iab5_6 => 64,
            ContentCategory::Iab5_7 => 65,
            ContentCategory::Iab5_8 => 66,
            ContentCategory::Iab5_9 => 67,
            ContentCategory::Iab5_10 => 68,
            ContentCategory::Iab5_11 => 69,
            ContentCategory::Iab5_12 => 70,
            ContentCategory::Iab5_13 => 71,
            ContentCategory::Iab5_14 => 72,
            ContentCategory::Iab5_15 => 73,
            ContentCategory::Iab6 => 74,
            ContentCategory::Iab6_1 => 75,
            ContentCategory::Iab6_2 => 76,
            ContentCategory::Iab6_3 => 77,
            ContentCategory::Iab6_4 => 78,
            ContentCategory::Iab6_5 => 79,
            ContentCategory::Iab6_6 => 80,
            ContentCategory::Iab6_7 => 81,
            ContentCategory::Iab6_8 => 82,
            ContentCategory::Iab6_9 => 83,
            ContentCategory::Iab7 => 84,
            ContentCategory::Iab7_1 => 85,
            ContentCategory::Iab7_2 => 86,
            ContentCategory::Iab7_3 => 87,
            ContentCategory::Iab7_4 => 88,
            ContentCategory::Iab7_5 => 89,
            ContentCategory::Iab7_6 => 90,
            ContentCategory::Iab7_7 => 91,
            ContentCategory::Iab7_8 => 92,
            ContentCategory::Iab7_9 => 93,
            ContentCategory::Iab7_10 => 94,
            ContentCategory::Iab7_11 => 95,
            ContentCategory::Iab7_12 => 96,
            ContentCategory::Iab7_13 => 97,
            ContentCategory::Iab7_14 => 98,
            ContentCategory::Iab7_15 => 99,
            ContentCategory::Iab7_16 => 100,
            ContentCategory::Iab7_17 => 101,
            ContentCategory::Iab7_18 => 102,
            ContentCategory::Iab7_19 => 103,
            ContentCategory::Iab7_20 => 104,
            ContentCategory::Iab7_21 => 105,
            ContentCategory::Iab7_22 => 106,
            ContentCategory::Iab7_23 => 107,
            ContentCategory::Iab7_24 => 108,
            ContentCategory::Iab7_25 => 109,
            ContentCategory::Iab7_26 => 110,
            ContentCategory::Iab7_27 => 111,
            ContentCategory::Iab7_28 => 112,
            ContentCategory::Iab7_29 => 113,
            ContentCategory::Iab7_30 => 114,
            ContentCategory::Iab7_31 => 115,
            ContentCategory::Iab7_32 => 116,
            ContentCategory::Iab7_33 => 117,
            ContentCategory::Iab7_34 => 118,
            ContentCategory::Iab7_35 => 119,
            ContentCategory::Iab7_36 => 120,
            ContentCategory::Iab7_37 => 121,
            ContentCategory::Iab7_38 => 122,
            ContentCategory::Iab7_39 => 123,
            ContentCategory::Iab7_40 => 124,
            ContentCategory::Iab7_41 => 125,
            ContentCategory::Iab7_42 => 126,
            ContentCategory::Iab7_43 => 127,
            ContentCategory::Iab7_44 => 128,
            ContentCategory::Iab7_45 => 129,
            ContentCategory::Iab8 => 130,
            ContentCategory::Iab8_1 => 131,
            ContentCategory::Iab8_2 => 132,
            ContentCategory::Iab8_3 => 133,
            ContentCategory::Iab8_4 => 134,
            ContentCategory::Iab8_5 => 135,
            ContentCategory::Iab8_6 => 136,
            ContentCategory::Iab8_7 => 137,
            ContentCategory::Iab8_8 => 138,
            ContentCategory::Iab8_9 => 139,
            ContentCategory::Iab8_10 => 140,
            ContentCategory::Iab8_11 => 141,
            ContentCategory::Iab8_12 => 142,
            ContentCategory::Iab8_13 => 143,
            ContentCategory::Iab8_14 => 144,
            ContentCategory::Iab8_15 => 145,
            ContentCategory::Iab8_16 => 146,
            ContentCategory::Iab8_17 => 147,
            ContentCategory::Iab8_18 => 148,
            ContentCategory::Iab9 => 149,
            ContentCategory::Iab9_1 => 150,
            ContentCategory::Iab9_2 => 151,
            ContentCategory::Iab9_3 => 152,
            ContentCategory::Iab9_4 => 153,
            ContentCategory::Iab9_5 => 154,
            ContentCategory::Iab9_6 => 155,
            ContentCategory::Iab9_7 => 156,
            ContentCategory::Iab9_8 => 157,
            ContentCategory::Iab9_9 => 158,
            ContentCategory::Iab9_10 => 159,
            ContentCategory::Iab9_11 => 160,
            ContentCategory::Iab9_12 => 161,
            ContentCategory::Iab9_13 => 162,
            ContentCategory::Iab9_14 => 163,
            ContentCategory::Iab9_15 => 164,
            ContentCategory::Iab9_16 => 165,
            ContentCategory::Iab9_17 => 166,
            ContentCategory::Iab9_18 => 167,
            ContentCategory::Iab9_19 => 168,
            ContentCategory::Iab9_20 => 169,
            ContentCategory::Iab9_21 => 170,
            ContentCategory::Iab9_22 => 171,
            ContentCategory::Iab9_23 => 172,
            ContentCategory::Iab9_24 => 173,
            ContentCategory::Iab9_25 => 174,
            ContentCategory::Iab9_26 => 175,
            ContentCategory::Iab9_27 => 176,
            ContentCategory::Iab9_28 => 177,
            ContentCategory::Iab9_29 => 178,
            ContentCategory::Iab9_30 => 179,
            ContentCategory::Iab9_31 => 180,
            ContentCategory::Iab10 => 181,
            ContentCategory::Iab10_1 => 182,
            ContentCategory::Iab10_2 => 183,
            ContentCategory::Iab10_3 => 184,
            ContentCategory::Iab10_4 => 185,
            ContentCategory::Iab10_5 => 186,
            ContentCategory::Iab10_6 => 187,
            ContentCategory::Iab10_7 => 188,
            ContentCategory::Iab10_8 => 189,
            ContentCategory::Iab10_9 => 190,
            ContentCategory::Iab11 => 191,
            ContentCategory::Iab11_1 => 192,
            ContentCategory::Iab11_2 => 193,
            ContentCategory::Iab11_3 => 194,
            ContentCategory::Iab11_4 => 195,
            ContentCategory::Iab11_5 => 196,
            ContentCategory::Iab12 => 197,
            ContentCategory::Iab12_1 => 198,
            ContentCategory::Iab12_2 => 199,
            ContentCategory::Iab12_3 => 200,
            ContentCategory::Iab13 => 201,
            ContentCategory::Iab13_1 => 202,
            ContentCategory::Iab13_2 => 203,
            ContentCategory::Iab13_3 => 204,
            ContentCategory::Iab13_4 => 205,
            ContentCategory::Iab13_5 => 206,
            ContentCategory::Iab13_6 => 207,
            ContentCategory::Iab13_7 => 208,
            ContentCategory::Iab13_8 => 209,
            ContentCategory::Iab13_9 => 210,
            ContentCategory::Iab13_10 => 211,
            ContentCategory::Iab13_11 => 212,
            ContentCategory::Iab13_12 => 213,
            ContentCategory::Iab14 => 214,
            ContentCategory::Iab14_1 => 215,
            ContentCategory::Iab14_2 => 216,
            ContentCategory::Iab14_3 => 217,
            ContentCategory::Iab14_4 => 218,
            ContentCategory::Iab14_5 => 219,
            ContentCategory::Iab14_6 => 220,
            ContentCategory::Iab14_7 => 221,
            ContentCategory::Iab14_8 => 222,
            ContentCategory::Iab15 => 223,
            ContentCategory::Iab15_1 => 224,
            ContentCategory::Iab15_2 => 225,
            ContentCategory::Iab15_3 => 226,
            ContentCategory::Iab15_4 => 227,
            ContentCategory::Iab15_5 => 228,
            ContentCategory::Iab15_6 => 229,
            ContentCategory::Iab15_7 => 230,
            ContentCategory::Iab15_8 => 231,
            ContentCategory::Iab15_9 => 232,
            ContentCategory::Iab15_10 => 233,
            ContentCategory::Iab16 => 234,
            ContentCategory::Iab16_1 => 235,
            ContentCategory::Iab16_2 => 236,
            ContentCategory::Iab16_3 => 237,
            ContentCategory::Iab16_4 => 238,
            ContentCategory::Iab16_5 => 239,
            ContentCategory::Iab16_6 => 240,
            ContentCategory::Iab16_7 => 241,
            ContentCategory::Iab17 => 242,
            ContentCategory::Iab17_1 => 243,
            ContentCategory::Iab17_2 => 244,
            ContentCategory::Iab17_3 => 245,
            ContentCategory::Iab17_4 => 246,
            ContentCategory::Iab17_5 => 247,
            ContentCategory::Iab17_6 => 248,
            ContentCategory::Iab17_7 => 249,
            ContentCategory::Iab17_8 => 250,
            ContentCategory::Iab17_9 => 251,
            ContentCategory::Iab17_10 => 252,
            ContentCategory::Iab17_11 => 253,
            ContentCategory::Iab17_12 => 254,
            ContentCategory::Iab17_13 => 255,
            ContentCategory::Iab17_14 => 256,
            ContentCategory::Iab17_15 => 257,
            ContentCategory::Iab17_16 => 258,
            ContentCategory::Iab17_17 => 259,
            ContentCategory::Iab17_18 => 260,
            ContentCategory::Iab17_19 => 261,
            ContentCategory::Iab17_20 => 262,
            ContentCategory::Iab17_21 => 263,
            ContentCategory::Iab17_22 => 264,
            ContentCategory::Iab17_23 => 265,
            ContentCategory::Iab17_24 => 266,
            ContentCategory::Iab17_25 => 267,
            ContentCategory::Iab17_26 => 268,
            ContentCategory::Iab17_27 => 269,
            ContentCategory::Iab17_28 => 270,
            ContentCategory::Iab17_29 => 271,
            ContentCategory::Iab17_30 => 272,
            ContentCategory::Iab17_31 => 273,
            ContentCategory::Iab17_32 => 274,
            ContentCategory::Iab17_33 => 275,
            ContentCategory::Iab17_34 => 276,
            ContentCategory::Iab17_35 => 277,
            ContentCategory::Iab17_36 => 278,
            ContentCategory::Iab17_37 => 279,
            ContentCategory::Iab17_38 => 280,
            ContentCategory::Iab17_39 => 281,
            ContentCategory::Iab17_40 => 282,
            ContentCategory::Iab17_41 => 283,
            ContentCategory::Iab17_42 => 284,
            ContentCategory::Iab17_43 => 285,
            ContentCategory::Iab17_44 => 286,
            ContentCategory::Iab18 => 287,
            ContentCategory::Iab18_1 => 288,
            ContentCategory::Iab18_2 => 289,
            ContentCategory::Iab18_3 => 290,
            ContentCategory::Iab18_4 => 291,
            ContentCategory::Iab18_5 => 292,
            ContentCategory::Iab18_6 => 293,
            ContentCategory::Iab19 => 294,
            ContentCategory::Iab19_1 => 295,
            ContentCategory::Iab19_2 => 296,
            ContentCategory::Iab19_3 => 297,
            ContentCategory::Iab19_4 => 298,
            ContentCategory::Iab19_5 => 299,
            ContentCategory::Iab19_6 => 300,
            ContentCategory::Iab19_7 => 301,
            ContentCategory::Iab19_8 => 302,
            ContentCategory::Iab19_9 => 303,
            ContentCategory::Iab19_10 => 304,
            ContentCategory::Iab19_11 => 305,
            ContentCategory::Iab19_12 => 306,
            ContentCategory::Iab19_13 => 307,
            ContentCategory::Iab19_14 => 308,
            ContentCategory::Iab19_15 => 309,
            ContentCategory::Iab19_16 => 310,
            ContentCategory::Iab19_17 => 311,
            ContentCategory::Iab19_18 => 312,
            ContentCategory::Iab19_19 => 313,
            ContentCategory::Iab19_20 => 314,
            ContentCategory::Iab19_21 => 315,
            ContentCategory::Iab19_22 => 316,
            ContentCategory::Iab19_23 => 317,
            ContentCategory::Iab19_24 => 318,
            ContentCategory::Iab19_25 => 319,
            ContentCategory::Iab19_26 => 320,
            ContentCategory::Iab19_27 => 321,
            ContentCategory::Iab19_28 => 322,
            ContentCategory::Iab19_29 => 323,
            ContentCategory::Iab19_30 => 324,
            ContentCategory::Iab19_31 => 325,
            ContentCategory::Iab19_32 => 326,
            ContentCategory::Iab19_33 => 327,
            ContentCategory::Iab19_34 => 328,
            ContentCategory::Iab19_35 => 329,
            ContentCategory::Iab19_36 => 330,
            ContentCategory::Iab20 => 331,
            ContentCategory::Iab20_1 => 332,
            ContentCategory::Iab20_2 => 333,
            ContentCategory::Iab20_3 => 334,
            ContentCategory::Iab20_4 => 335,
            ContentCategory::Iab20_5 => 336,
            ContentCategory::Iab20_6 => 337,
            ContentCategory::Iab20_7 => 338,
            ContentCategory::Iab20_8 => 339,
            ContentCategory::Iab20_9 => 340,
            ContentCategory::Iab20_10 => 341,
            ContentCategory::Iab20_11 => 342,
            ContentCategory::Iab20_12 => 343,
            ContentCategory::Iab20_13 => 344,
            ContentCategory::Iab20_14 => 345,
            ContentCategory::Iab20_15 => 346,
            ContentCategory::Iab20_16 => 347,
            ContentCategory::Iab20_17 => 348,
            ContentCategory::Iab20_18 => 349,
            ContentCategory::Iab20_19 => 350,
            ContentCategory::Iab20_20 => 351,
            ContentCategory::Iab20_21 => 352,
            ContentCategory::Iab20_22 => 353,
            ContentCategory::Iab20_23 => 354,
            ContentCategory::Iab20_24 => 355,
            ContentCategory::Iab20_25 => 356,
            ContentCategory::Iab20_26 => 357,
            ContentCategory::Iab20_27 => 358,
            ContentCategory::Iab21 => 359,
            ContentCategory::Iab21_1x => 360,
            ContentCategory::Iab21_2x => 361,
            ContentCategory::Iab21_3x => 362,
            ContentCategory::Iab22 => 363,
            ContentCategory::Iab22_1x => 364,
            ContentCategory::Iab22_2x => 365,
            ContentCategory::Iab22_3x => 366,
            ContentCategory::Iab22_4 => 367,
            ContentCategory::Iab23 => 368,
            ContentCategory::Iab23_1 => 369,
            ContentCategory::Iab23_2 => 370,
            ContentCategory::Iab23_3 => 371,
            ContentCategory::Iab23_4 => 372,
            ContentCategory::Iab23_5 => 373,
            ContentCategory::Iab23_6 => 374,
            ContentCategory::Iab23_7 => 375,
            ContentCategory::Iab23_8 => 376,
            ContentCategory::Iab23_9 => 377,
            ContentCategory::Iab23_10 => 378,
            ContentCategory::Iab24 => 379,
            ContentCategory::Iab25 => 380,
            ContentCategory::Iab25_1 => 381,
            ContentCategory::Iab25_2 => 382,
            ContentCategory::Iab25_3 => 383,
            ContentCategory::Iab25_4 => 384,
            ContentCategory::Iab25_5 => 385,
            ContentCategory::Iab25_6 => 386,
            ContentCategory::Iab25_7 => 387,
            ContentCategory::Iab26 => 388,
            ContentCategory::Iab26_1 => 389,
            ContentCategory::Iab26_2 => 390,
            ContentCategory::Iab26_3 => 391,
            ContentCategory::Iab26_4 => 392,
        }
    }

    open spec fn from_code_spec(code: i32) -> Option<ContentCategory> {
        match code {
            0 => Some(ContentCategory::Undefined),
            1 => Some(ContentCategory::Iab1),
            2 => Some(ContentCategory::Iab1_1),
            3 => Some(ContentCategory::Iab1_2),
            4 => Some(ContentCategory::Iab1_3),
            5 => Some(ContentCategory::Iab1_4),
            6 => Some(ContentCategory::Iab1_5),
            7 => Some(ContentCategory::Iab1_6),
            8 => Some(ContentCategory::Iab1_7),
            9 => Some(ContentCategory::Iab2),
            10 => Some(ContentCategory::Iab2_1),
            11 => Some(ContentCategory::Iab2_2),
            12 => Some(ContentCategory::Iab2_3),
            13 => Some(ContentCategory::Iab2_4),
            14 => Some(ContentCategory::Iab2_5),
            15 => Some(ContentCategory::Iab2_6),
            16 => Some(ContentCategory::Iab2_7),
            17 => Some(ContentCategory::Iab2_8),
            18 => Some(ContentCategory::Iab2_9),
            19 => Some(ContentCategory::Iab2_10),
            20 => Some(ContentCategory::Iab2_11),
            21 => Some(ContentCategory::Iab2_12),
            22 => Some(ContentCategory::Iab2_13),
            23 => Some(ContentCategory::Iab2_14),
            24 => Some(ContentCategory::Iab2_15),
            25 => Some(ContentCategory::Iab2_16),
            26 => Some(ContentCategory::Iab2_17),
            27 => Some(ContentCategory::Iab2_18),
            28 => Some(ContentCategory::Iab2_19),
            29 => Some(ContentCategory::Iab2_20),
            30 => Some(ContentCategory::Iab2_21),
            31 => Some(ContentCategory::Iab2_22),
            32 => Some(ContentCategory::Iab2_23),
            33 => Some(ContentCategory::Iab3),
            34 => Some(ContentCategory::Iab3_1),
            35 => Some(ContentCategory::Iab3_2),
            36 => Some(ContentCategory::Iab3_3),
            37 => Some(ContentCategory::Iab3_4),
            38 => Some(ContentCategory::Iab3_5),
            39 => Some(ContentCategory::Iab3_6),
            40 => Some(ContentCategory::Iab3_7),
            41 => Some(ContentCategory::Iab3_8),
            42 => Some(ContentCategory::Iab3_9),
            43 => Some(ContentCategory::Iab3_10),
            44 => Some(ContentCategory::Iab3_11),
            45 => Some(ContentCategory::Iab3_12),
            46 => Some(ContentCategory::Iab4),
            47 => Some(ContentCategory::Iab4_1),
            48 => Some(ContentCategory::Iab4_2),
            49 => Some(ContentCategory::Iab4_3),
            50 => Some(ContentCategory::Iab4_4),
            51 => Some(ContentCategory::Iab4_5),
            52 => Some(ContentCategory::Iab4_6),
            53 => Some(ContentCategory::Iab4_7),
            54 => Some(ContentCategory::Iab4_8),
            55 => Some(ContentCategory::Iab4_9),
            56 => Some(ContentCategory::Iab4_10),
            57 => Some(ContentCategory::Iab4_11),
            58 => Some(ContentCategory::Iab5),
            59 => Some(ContentCategory::Iab5_1),
            60 => Some(ContentCategory::Iab5_2),
            61 => Some(ContentCategory::Iab5_3),
            62 => Some(ContentCategory::Iab5_4),
            63 => Some(ContentCategory::Iab5_5),
            64 => Some(ContentCategory::Iab5_6),
            65 => Some(ContentCategory::Iab5_7),
            66 => Some(ContentCategory::Iab5_8),
            67 => Some(ContentCategory::Iab5_9),
            68 => Some(ContentCategory::Iab5_10),
            69 => Some(ContentCategory::Iab5_11),
            70 => Some(ContentCategory::Iab5_12),
            71 => Some(ContentCategory::Iab5_13),
            72 => Some(ContentCategory::Iab5_14),
            73 => Some(ContentCategory::Iab5_15),
            74 => Some(ContentCategory::Iab6),
            75 => Some(ContentCategory::Iab6_1),
            76 => Some(ContentCategory::Iab6_2),
            77 => Some(ContentCategory::Iab6_3),
            78 => Some(ContentCategory::Iab6_4),
            79 => Some(ContentCategory::Iab6_5),
            80 => Some(ContentCategory::Iab6_6),
            81 => Some(ContentCategory::Iab6_7),
            82 => Some(ContentCategory::Iab6_8),
            83 => Some(ContentCategory::Iab6_9),
            84 => Some(ContentCategory::Iab7),
            85 => Some(ContentCategory::Iab7_1),
            86 => Some(ContentCategory::Iab7_2),
            87 => Some(ContentCategory::Iab7_3),
            88 => Some(ContentCategory::Iab7_4),
            89 => Some(ContentCategory::Iab7_5),
            90 => Some(ContentCategory::Iab7_6),
            91 => Some(ContentCategory::Iab7_7),
            92 => Some(ContentCategory::Iab7_8),
            93 => Some(ContentCategory::Iab7_9),
            94 => Some(ContentCategory::Iab7_10),
            95 => Some(ContentCategory::Iab7_11),
            96 => Some(ContentCategory::Iab7_12),
            97 => Some(ContentCategory::Iab7_13),
            98 => Some(ContentCategory::Iab7_14),
            99 => Some(ContentCategory::Iab7_15),
            100 => Some(ContentCategory::Iab7_16),
            101 => Some(ContentCategory::Iab7_17),
            102 => Some(ContentCategory::Iab7_18),
            103 => Some(ContentCategory::Iab7_19),
            104 => Some(ContentCategory::Iab7_20),
            105 => Some(ContentCategory::Iab7_21),
            106 => Some(ContentCategory::Iab7_22),
            107 => Some(ContentCategory::Iab7_23),
            108 => Some(ContentCategory::Iab7_24),
            109 => Some(ContentCategory::Iab7_25),
            110 => Some(ContentCategory::Iab7_26),
            111 => Some(ContentCategory::Iab7_27),
            112 => Some(ContentCategory::Iab7_28),
            113 => Some(ContentCategory::Iab7_29),
            114 => Some(ContentCategory::Iab7_30),
            115 => Some(ContentCategory::Iab7_31),
            116 => Some(ContentCategory::Iab7_32),
            117 => Some(ContentCategory::Iab7_33),
            118 => Some(ContentCategory::Iab7_34),
            119 => Some(ContentCategory::Iab7_35),
            120 => Some(ContentCategory::Iab7_36),
            121 => Some(ContentCategory::Iab7_37),
            122 => Some(ContentCategory::Iab7_38),
            123 => Some(ContentCategory::Iab7_39),
            124 => Some(ContentCategory::Iab7_40),
            125 => Some(ContentCategory::Iab7_41),
            126 => Some(ContentCategory::Iab7_42),
            127 => Some(ContentCategory::Iab7_43),
            128 => Some(ContentCategory::Iab7_44),
            129 => Some(ContentCategory::Iab7_45),
            130 => Some(ContentCategory::Iab8),
            131 => Some(ContentCategory::Iab8_1),
            132 => Some(ContentCategory::Iab8_2),
            133 => Some(ContentCategory::Iab8_3),
            134 => Some(ContentCategory::Iab8_4),
            135 => Some(ContentCategory::Iab8_5),
            136 => Some(ContentCategory::Iab8_6),
            137 => Some(ContentCategory::Iab8_7),
            138 => Some(ContentCategory::Iab8_8),
            139 => Some(ContentCategory::Iab8_9),
            140 => Some(ContentCategory::Iab8_10),
            141 => Some(ContentCategory::Iab8_11),
            142 => Some(ContentCategory::Iab8_12),
            143 => Some(ContentCategory::Iab8_13),
            144 => Some(ContentCategory::Iab8_14),
            145 => Some(ContentCategory::Iab8_15),
            146 => Some(ContentCategory::Iab8_16),
            147 => Some(ContentCategory::Iab8_17),
            148 => Some(ContentCategory::Iab8_18),
            149 => Some(ContentCategory::Iab9),
            150 => Some(ContentCategory::Iab9_1),
            151 => Some(ContentCategory::Iab9_2),
            152 => Some(ContentCategory::Iab9_3),
            153 => Some(ContentCategory::Iab9_4),
            154 => Some(ContentCategory::Iab9_5),
            155 => Some(ContentCategory::Iab9_6),
            156 => Some(ContentCategory::Iab9_7),
            157 => Some(ContentCategory::Iab9_8),
            158 => Some(ContentCategory::Iab9_9),
            159 => Some(ContentCategory::Iab9_10),
            160 => Some(ContentCategory::Iab9_11),
            161 => Some(ContentCategory::Iab9_12),
            162 => Some(ContentCategory::Iab9_13),
            163 => Some(ContentCategory::Iab9_14),
            164 => Some(ContentCategory::Iab9_15),
            165 => Some(ContentCategory::Iab9_16),
            166 => Some(ContentCategory::Iab9_17),
            167 => Some(ContentCategory::Iab9_18),
            168 => Some(ContentCategory::Iab9_19),
            169 => Some(ContentCategory::Iab9_20),
            170 => Some(ContentCategory::Iab9_21),
            171 => Some(ContentCategory::Iab9_22),
            172 => Some(ContentCategory::Iab9_23),
            173 => Some(ContentCategory::Iab9_24),
            174 => Some(ContentCategory::Iab9_25),
            175 => Some(ContentCategory::Iab9_26),
            176 => Some(ContentCategory::Iab9_27),
            177 => Some(ContentCategory::Iab9_28),
            178 => Some(ContentCategory::Iab9_29),
            179 => Some(ContentCategory::Iab9_30),
            180 => Some(ContentCategory::Iab9_31),
            181 => Some(ContentCategory::Iab10),
            182 => Some(ContentCategory::Iab10_1),
            183 => Some(ContentCategory::Iab10_2),
            184 => Some(ContentCategory::Iab10_3),
            185 => Some(ContentCategory::Iab10_4),
            186 => Some(ContentCategory::Iab10_5),
            187 => Some(ContentCategory::Iab10_6),
            188 => Some(ContentCategory::Iab10_7),
            189 => Some(ContentCategory::Iab10_8),
            190 => Some(ContentCategory::Iab10_9),
            191 => Some(ContentCategory::Iab11),
            192 => Some(ContentCategory::Iab11_1),
            193 => Some(ContentCategory::Iab11_2),
            194 => Some(ContentCategory::Iab11_3),
            195 => Some(ContentCategory::Iab11_4),
            196 => Some(ContentCategory::Iab11_5),
            197 => Some(ContentCategory::Iab12),
            198 => Some(ContentCategory::Iab12_1),
            199 => Some(ContentCategory::Iab12_2),
            200 => Some(ContentCategory::Iab12_3),
            201 => Some(ContentCategory::Iab13),
            202 => Some(ContentCategory::Iab13_1),
            203 => Some(ContentCategory::Iab13_2),
            204 => Some(ContentCategory::Iab13_3),
            205 => Some(ContentCategory::Iab13_4),
            206 => Some(ContentCategory::Iab13_5),
            207 => Some(ContentCategory::Iab13_6),
            208 => Some(ContentCategory::Iab13_7),
            209 => Some(ContentCategory::Iab13_8),
            210 => Some(ContentCategory::Iab13_9),
            211 => Some(ContentCategory::Iab13_10),
            212 => Some(ContentCategory::Iab13_11),
            213 => Some(ContentCategory::Iab13_12),
            214 => Some(ContentCategory::Iab14),
            215 => Some(ContentCategory::Iab14_1),
            216 => Some(ContentCategory::Iab14_2),
            217 => Some(ContentCategory::Iab14_3),
            218 => Some(ContentCategory::Iab14_4),
            219 => Some(ContentCategory::Iab14_5),
            220 => Some(ContentCategory::Iab14_6),
            221 => Some(ContentCategory::Iab14_7),
            222 => Some(ContentCategory::Iab14_8),
            223 => Some(ContentCategory::Iab15),
            224 => Some(ContentCategory::Iab15_1),
            225 => Some(ContentCategory::Iab15_2),
            226 => Some(ContentCategory::Iab15_3),
            227 => Some(ContentCategory::Iab15_4),
            228 => Some(ContentCategory::Iab15_5),
            229 => Some(ContentCategory::Iab15_6),
            230 => Some(ContentCategory::Iab15_7),
            231 => Some(ContentCategory::Iab15_8),
            232 => Some(ContentCategory::Iab15_9),
            233 => Some(ContentCategory::Iab15_10),
            234 => Some(ContentCategory::Iab16),
            235 => Some(ContentCategory::Iab16_1),
            236 => Some(ContentCategory::Iab16_2),
            237 => Some(ContentCategory::Iab16_3),
            238 => Some(ContentCategory::Iab16_4),
            239 => Some(ContentCategory::Iab16_5),
            240 => Some(ContentCategory::Iab16_6),
            241 => Some(ContentCategory::Iab16_7),
            242 => Some(ContentCategory::Iab17),
            243 => Some(ContentCategory::Iab17_1),
            244 => Some(ContentCategory::Iab17_2),
            245 => Some(ContentCategory::Iab17_3),
            246 => Some(ContentCategory::Iab17_4),
            247 => Some(ContentCategory::Iab17_5),
            248 => Some(ContentCategory::Iab17_6),
            249 => Some(ContentCategory::Iab17_7),
            250 => Some(ContentCategory::Iab17_8),
            251 => Some(ContentCategory::Iab17_9),
            252 => Some(ContentCategory::Iab17_10),
            253 => Some(ContentCategory::Iab17_11),
            254 => Some(ContentCategory::Iab17_12),
            255 => Some(ContentCategory::Iab17_13),
            256 => Some(ContentCategory::Iab17_14),
            257 => Some(ContentCategory::Iab17_15),
            258 => Some(ContentCategory::Iab17_16),
            259 => Some(ContentCategory::Iab17_17),
            260 => Some(ContentCategory::Iab17_18),
            261 => Some(ContentCategory::Iab17_19),
            262 => Some(ContentCategory::Iab17_20),
            263 => Some(ContentCategory::Iab17_21),
            264 => Some(ContentCategory::Iab17_22),
            265 => Some(ContentCategory::Iab17_23),
            266 => Some(ContentCategory::Iab17_24),
            267 => Some(ContentCategory::Iab17_25),
            268 => Some(ContentCategory::Iab17_26),
            269 => Some(ContentCategory::Iab17_27),
            270 => Some(ContentCategory::Iab17_28),
            271 => Some(ContentCategory::Iab17_29),
            272 => Some(ContentCategory::Iab17_30),
            273 => Some(ContentCategory::Iab17_31),
            274 => Some(ContentCategory::Iab17_32),
            275 => Some(ContentCategory::Iab17_33),
            276 => Some(ContentCategory::Iab17_34),
            277 => Some(ContentCategory::Iab17_35),
            278 => Some(ContentCategory::Iab17_36),
            279 => Some(ContentCategory::Iab17_37),
            280 => Some(ContentCategory::Iab17_38),
            281 => Some(ContentCategory::Iab17_39),
            282 => Some(ContentCategory::Iab17_40),
            283 => Some(ContentCategory::Iab17_41),
            284 => Some(ContentCategory::Iab17_42),
            285 => Some(ContentCategory::Iab17_43),
            286 => Some(ContentCategory::Iab17_44),
            287 => Some(ContentCategory::Iab18),
            288 => Some(ContentCategory::Iab18_1),
            289 => Some(ContentCategory::Iab18_2),
            290 => Some(ContentCategory::Iab18_3),
            291 => Some(ContentCategory::Iab18_4),
            292 => Some(ContentCategory::Iab18_5),
            293 => Some(ContentCategory::Iab18_6),
            294 => Some(ContentCategory::Iab19),
            295 => Some(ContentCategory::Iab19_1),
            296 => Some(ContentCategory::Iab19_2),
            297 => Some(ContentCategory::Iab19_3),
            298 => Some(ContentCategory::Iab19_4),
            299 => Some(ContentCategory::Iab19_5),
            300 => Some(ContentCategory::Iab19_6),
            301 => Some(ContentCategory::Iab19_7),
            302 => Some(ContentCategory::Iab19_8),
            303 => Some(ContentCategory::Iab19_9),
            304 => Some(ContentCategory::Iab19_10),
            305 => Some(ContentCategory::Iab19_11),
            306 => Some(ContentCategory::Iab19_12),
            307 => Some(ContentCategory::Iab19_13),
            308 => Some(ContentCategory::Iab19_14),
            309 => Some(ContentCategory::Iab19_15),
            310 => Some(ContentCategory::Iab19_16),
            311 => Some(ContentCategory::Iab19_17),
            312 => Some(ContentCategory::Iab19_18),
            313 => Some(ContentCategory::Iab19_19),
            314 => Some(ContentCategory::Iab19_20),
            315 => Some(ContentCategory::Iab19_21),
            316 => Some(ContentCategory::Iab19_22),
            317 => Some(ContentCategory::Iab19_23),
            318 => Some(ContentCategory::Iab19_24),
            319 => Some(ContentCategory::Iab19_25),
            320 => Some(ContentCategory::Iab19_26),
            321 => Some(ContentCategory::Iab19_27),
            322 => Some(ContentCategory::Iab19_28),
            323 => Some(ContentCategory::Iab19_29),
            324 => Some(ContentCategory::Iab19_30),
            325 => Some(ContentCategory::Iab19_31),
            326 => Some(ContentCategory::Iab19_32),
            327 => Some(ContentCategory::Iab19_33),
            328 => Some(ContentCategory::Iab19_34),
            329 => Some(ContentCategory::Iab19_35),
            330 => Some(ContentCategory::Iab19_36),
            331 => Some(ContentCategory::Iab20),
            332 => Some(ContentCategory::Iab20_1),
            333 => Some(ContentCategory::Iab20_2),
            334 => Some(ContentCategory::Iab20_3),
            335 => Some(ContentCategory::Iab20_4),
            336 => Some(ContentCategory::Iab20_5),
            337 => Some(ContentCategory::Iab20_6),
            338 => Some(ContentCategory::Iab20_7),
            339 => Some(ContentCategory::Iab20_8),
            340 => Some(ContentCategory::Iab20_9),
            341 => Some(ContentCategory::Iab20_10),
            342 => Some(ContentCategory::Iab20_11),
            343 => Some(ContentCategory::Iab20_12),
            344 => Some(ContentCategory::Iab20_13),
            345 => Some(ContentCategory::Iab20_14),
            346 => Some(ContentCategory::Iab20_15),
            347 => Some(ContentCategory::Iab20_16),
            348 => Some(ContentCategory::Iab20_17),
            349 => Some(ContentCategory::Iab20_18),
            350 => Some(ContentCategory::Iab20_19),
            351 => Some(ContentCategory::Iab20_20),
            352 => Some(ContentCategory::Iab20_21),
            353 => Some(ContentCategory::Iab20_22),
            354 => Some(ContentCategory::Iab20_23),
            355 => Some(ContentCategory::Iab20_24),
            356 => Some(ContentCategory::Iab20_25),
            357 => Some(ContentCategory::Iab20_26),
            358 => Some(ContentCategory::Iab20_27),
            359 => Some(ContentCategory::Iab21),
            360 => Some(ContentCategory::Iab21_1x),
            361 => Some(ContentCategory::Iab21_2x),
            362 => Some(ContentCategory::Iab21_3x),
            363 => Some(ContentCategory::Iab22),
            364 => Some(ContentCategory::Iab22_1x),
            365 => Some(ContentCategory::Iab22_2x),
            366 => Some(ContentCategory::Iab22_3x),
            367 => Some(ContentCategory::Iab22_4),
            368 => Some(ContentCategory::Iab23),
            369 => Some(ContentCategory::Iab23_1),
            370 => Some(ContentCategory::Iab23_2),
            371 => Some(ContentCategory::Iab23_3),
            372 => Some(ContentCategory::Iab23_4),
            373 => Some(ContentCategory::Iab23_5),
            374 => Some(ContentCategory::Iab23_6),
            375 => Some(ContentCategory::Iab23_7),
            376 => Some(ContentCategory::Iab23_8),
            377 => Some(ContentCategory::Iab23_9),
            378 => Some(ContentCategory::Iab23_10),
            379 => Some(ContentCategory::Iab24),
            380 => Some(ContentCategory::Iab25),
            381 => Some(ContentCategory::Iab25_1),
            382 => Some(ContentCategory::Iab25_2),
            383 => Some(ContentCategory::Iab25_3),
            384 => Some(ContentCategory::Iab25_4),
            385 => Some(ContentCategory::Iab25_5),
            386 => Some(ContentCategory::Iab25_6),
            387 => Some(ContentCategory::Iab25_7),
            388 => Some(ContentCategory::Iab26),
            389 => Some(ContentCategory::Iab26_1),
            390 => Some(ContentCategory::Iab26_2),
            391 => Some(ContentCategory::Iab26_3),
            392 => Some(ContentCategory::Iab26_4),
            _ => None,
        }
    }

    fn code(&self) -> (code: i32) {
        match self {
            ContentCategory::Undefined => 0,
            ContentCategory::Iab1 => 1,
            ContentCategory::Iab1_1 => 2,
            ContentCategory::Iab1_2 => 3,
            ContentCategory::Iab1_3 => 4,
            ContentCategory::Iab1_4 => 5,
            ContentCategory::Iab1_5 => 6,
            ContentCategory::Iab1_6 => 7,
            ContentCategory::Iab1_7 => 8,
            ContentCategory::Iab2 => 9,
            ContentCategory::Iab2_1 => 10,
            ContentCategory::Iab2_2 => 11,
            ContentCategory::Iab2_3 => 12,
            ContentCategory::Iab2_4 => 13,
            ContentCategory::Iab2_5 => 14,
            ContentCategory::Iab2_6 => 15,
            ContentCategory::Iab2_7 => 16,
            ContentCategory::Iab2_8 => 17,
            ContentCategory::Iab2_9 => 18,
            ContentCategory::Iab2_10 => 19,
            ContentCategory::Iab2_11 => 20,
            ContentCategory::Iab2_12 => 21,
            ContentCategory::Iab2_13 => 22,
            ContentCategory::Iab2_14 => 23,
            ContentCategory::Iab2_15 => 24,
            ContentCategory::Iab2_16 => 25,
            ContentCategory::Iab2_17 => 26,
            ContentCategory::Iab2_18 => 27,
            ContentCategory::Iab2_19 => 28,
            ContentCategory::Iab2_20 => 29,
            ContentCategory::Iab2_21 => 30,
            ContentCategory::Iab2_22 => 31,
            ContentCategory::Iab2_23 => 32,
            ContentCategory::Iab3 => 33,
            ContentCategory::Iab3_1 => 34,
            ContentCategory::Iab3_2 => 35,
            ContentCategory::Iab3_3 => 36,
            ContentCategory::Iab3_4 => 37,
            ContentCategory::Iab3_5 => 38,
            ContentCategory::Iab3_6 => 39,
            ContentCategory::Iab3_7 => 40,
            ContentCategory::Iab3_8 => 41,
            ContentCategory::Iab3_9 => 42,
            ContentCategory::Iab3_10 => 43,
            ContentCategory::Iab3_11 => 44,
            ContentCategory::Iab3_12 => 45,
            ContentCategory::Iab4 => 46,
            ContentCategory::Iab4_1 => 47,
            ContentCategory::Iab4_2 => 48,
            ContentCategory::Iab4_3 => 49,
            ContentCategory::Iab4_4 => 50,
            ContentCategory::Iab4_5 => 51,
            ContentCategory::Iab4_6 => 52,
            ContentCategory::Iab4_7 => 53,
            ContentCategory::Iab4_8 => 54,
            ContentCategory::Iab4_9 => 55,
            ContentCategory::Iab4_10 => 56,
            ContentCategory::Iab4_11 => 57,
            ContentCategory::Iab5 => 58,
            ContentCategory::Iab5_1 => 59,
            ContentCategory::Iab5_2 => 60,
            ContentCategory::Iab5_3 => 61,
            ContentCategory::Iab5_4 => 62,
            ContentCategory::Iab5_5 => 63,
            ContentCategory::Iab5_6 => 64,
            ContentCategory::Iab5_7 => 65,
            ContentCategory::Iab5_8 => 66,
            ContentCategory::Iab5_9 => 67,
            ContentCategory::Iab5_10 => 68,
            ContentCategory::Iab5_11 => 69,
            ContentCategory::Iab5_12 => 70,
            ContentCategory::Iab5_13 => 71,
            ContentCategory::Iab5_14 => 72,
            ContentCategory::Iab5_15 => 73,
            ContentCategory::Iab6 => 74,
            ContentCategory::Iab6_1 => 75,
            ContentCategory::Iab6_2 => 76,
            ContentCategory::Iab6_3 => 77,
            ContentCategory::Iab6_4 => 78,
            ContentCategory::Iab6_5 => 79,
            ContentCategory::Iab6_6 => 80,
            ContentCategory::Iab6_7 => 81,
            ContentCategory::Iab6_8 => 82,
            ContentCategory::Iab6_9 => 83,
            ContentCategory::Iab7 => 84,
            ContentCategory::Iab7_1 => 85,
            ContentCategory::Iab7_2 => 86,
            ContentCategory::Iab7_3 => 87,
            ContentCategory::Iab7_4 => 88,
            ContentCategory::Iab7_5 => 89,
            ContentCategory::Iab7_6 => 90,
            ContentCategory::Iab7_7 => 91,
            ContentCategory::Iab7_8 => 92,
            ContentCategory::Iab7_9 => 93,
            ContentCategory::Iab7_10 => 94,
            ContentCategory::Iab7_11 => 95,
            ContentCategory::Iab7_12 => 96,
            ContentCategory::Iab7_13 => 97,
            ContentCategory::Iab7_14 => 98,
            ContentCategory::Iab7_15 => 99,
            ContentCategory::Iab7_16 => 100,
            ContentCategory::Iab7_17 => 101,
            ContentCategory::Iab7_18 => 102,
            ContentCategory::Iab7_19 => 103,
            ContentCategory::Iab7_20 => 104,
            ContentCategory::Iab7_21 => 105,
            ContentCategory::Iab7_22 => 106,
            ContentCategory::Iab7_23 => 107,
            ContentCategory::Iab7_24 => 108,
            ContentCategory::Iab7_25 => 109,
            ContentCategory::Iab7_26 => 110,
            ContentCategory::Iab7_27 => 111,
            ContentCategory::Iab7_28 => 112,
            ContentCategory::Iab7_29 => 113,
            ContentCategory::Iab7_30 => 114,
            ContentCategory::Iab7_31 => 115,
            ContentCategory::Iab7_32 => 116,
            ContentCategory::Iab7_33 => 117,
            ContentCategory::Iab7_34 => 118,
            ContentCategory::Iab7_35 => 119,
            ContentCategory::Iab7_36 => 120,
            ContentCategory::Iab7_37 => 121,
            ContentCategory::Iab7_38 => 122,
            ContentCategory::Iab7_39 => 123,
            ContentCategory::Iab7_40 => 124,
            ContentCategory::Iab7_41 => 125,
            ContentCategory::Iab7_42 => 126,
            ContentCategory::Iab7_43 => 127,
            ContentCategory::Iab7_44 => 128,
            ContentCategory::Iab7_45 => 129,
            ContentCategory::Iab8 => 130,
            ContentCategory::Iab8_1 => 131,
            ContentCategory::Iab8_2 => 132,
            ContentCategory::Iab8_3 => 133,
            ContentCategory::Iab8_4 => 134,
            ContentCategory::Iab8_5 => 135,
            ContentCategory::Iab8_6 => 136,
            ContentCategory::Iab8_7 => 137,
            ContentCategory::Iab8_8 => 138,
            ContentCategory::Iab8_9 => 139,
            ContentCategory::Iab8_10 => 140,
            ContentCategory::Iab8_11 => 141,
            ContentCategory::Iab8_12 => 142,
            ContentCategory::Iab8_13 => 143,
            ContentCategory::Iab8_14 => 144,
            ContentCategory::Iab8_15 => 145,
            ContentCategory::Iab8_16 => 146,
            ContentCategory::Iab8_17 => 147,
            ContentCategory::Iab8_18 => 148,
            ContentCategory::Iab9 => 149,
            ContentCategory::Iab9_1 => 150,
            ContentCategory::Iab9_2 => 151,
            ContentCategory::Iab9_3 => 152,
            ContentCategory::Iab9_4 => 153,
            ContentCategory::Iab9_5 => 154,
            ContentCategory::Iab9_6 => 155,
            ContentCategory::Iab9_7 => 156,
            ContentCategory::Iab9_8 => 157,
            ContentCategory::Iab9_9 => 158,
            ContentCategory::Iab9_10 => 159,
            ContentCategory::Iab9_11 => 160,
            ContentCategory::Iab9_12 => 161,
            ContentCategory::Iab9_13 => 162,
            ContentCategory::Iab9_14 => 163,
            ContentCategory::Iab9_15 => 164,
            ContentCategory::Iab9_16 => 165,
            ContentCategory::Iab9_17 => 166,
            ContentCategory::Iab9_18 => 167,
            ContentCategory::Iab9_19 => 168,
            ContentCategory::Iab9_20 => 169,
            ContentCategory::Iab9_21 => 170,
            ContentCategory::Iab9_22 => 171,
            ContentCategory::Iab9_23 => 172,
            ContentCategory::Iab9_24 => 173,
            ContentCategory::Iab9_25 => 174,
            ContentCategory::Iab9_26 => 175,
            ContentCategory::Iab9_27 => 176,
            ContentCategory::Iab9_28 => 177,
            ContentCategory::Iab9_29 => 178,
            ContentCategory::Iab9_30 => 179,
            ContentCategory::Iab9_31 => 180,
            ContentCategory::Iab10 => 181,
            ContentCategory::Iab10_1 => 182,
            ContentCategory::Iab10_2 => 183,
            ContentCategory::Iab10_3 => 184,
            ContentCategory::Iab10_4 => 185,
            ContentCategory::Iab10_5 => 186,
            ContentCategory::Iab10_6 => 187,
            ContentCategory::Iab10_7 => 188,
            ContentCategory::Iab10_8 => 189,
            ContentCategory::Iab10_9 => 190,
            ContentCategory::Iab11 => 191,
            ContentCategory::Iab11_1 => 192,
            ContentCategory::Iab11_2 => 193,
            ContentCategory::Iab11_3 => 194,
            ContentCategory::Iab11_4 => 195,
            ContentCategory::Iab11_5 => 196,
            ContentCategory::Iab12 => 197,
            ContentCategory::Iab12_1 => 198,
            ContentCategory::Iab12_2 => 199,
            ContentCategory::Iab12_3 => 200,
            ContentCategory::Iab13 => 201,
            ContentCategory::Iab13_1 => 202,
            ContentCategory::Iab13_2 => 203,
            ContentCategory::Iab13_3 => 204,
            ContentCategory::Iab13_4 => 205,
            ContentCategory::Iab13_5 => 206,
            ContentCategory::Iab13_6 => 207,
            ContentCategory::Iab13_7 => 208,
            ContentCategory::Iab13_8 => 209,
            ContentCategory::Iab13_9 => 210,
            ContentCategory::Iab13_10 => 211,
            ContentCategory::Iab13_11 => 212,
            ContentCategory::Iab13_12 => 213,
            ContentCategory::Iab14 => 214,
            ContentCategory::Iab14_1 => 215,
            ContentCategory::Iab14_2 => 216,
            ContentCategory::Iab14_3 => 217,
            ContentCategory::Iab14_4 => 218,
            ContentCategory::Iab14_5 => 219,
            ContentCategory::Iab14_6 => 220,
            ContentCategory::Iab14_7 => 221,
            ContentCategory::Iab14_8 => 222,
            ContentCategory::Iab15 => 223,
            ContentCategory::Iab15_1 => 224,
            ContentCategory::Iab15_2 => 225,
            ContentCategory::Iab15_3 => 226,
            ContentCategory::Iab15_4 => 227,
            ContentCategory::Iab15_5 => 228,
            ContentCategory::Iab15_6 => 229,
            ContentCategory::Iab15_7 => 230,
            ContentCategory::Iab15_8 => 231,
            ContentCategory::Iab15_9 => 232,
            ContentCategory::Iab15_10 => 233,
            ContentCategory::Iab16 => 234,
            ContentCategory::Iab16_1 => 235,
            ContentCategory::Iab16_2 => 236,
            ContentCategory::Iab16_3 => 237,
            ContentCategory::Iab16_4 => 238,
            ContentCategory::Iab16_5 => 239,
            ContentCategory::Iab16_6 => 240,
            ContentCategory::Iab16_7 => 241,
            ContentCategory::Iab17 => 242,
            ContentCategory::Iab17_1 => 243,
            ContentCategory::Iab17_2 => 244,
            ContentCategory::Iab17_3 => 245,
            ContentCategory::Iab17_4 => 246,
            ContentCategory::Iab17_5 => 247,
            ContentCategory::Iab17_6 => 248,
            ContentCategory::Iab17_7 => 249,
            ContentCategory::Iab17_8 => 250,
            ContentCategory::Iab17_9 => 251,
            ContentCategory::Iab17_10 => 252,
            ContentCategory::Iab17_11 => 253,
            ContentCategory::Iab17_12 => 254,
            ContentCategory::Iab17_13 => 255,
            ContentCategory::Iab17_14 => 256,
            ContentCategory::Iab17_15 => 257,
            ContentCategory::Iab17_16 => 258,
            ContentCategory::Iab17_17 => 259,
            ContentCategory::Iab17_18 => 260,
            ContentCategory::Iab17_19 => 261,
            ContentCategory::Iab17_20 => 262,
            ContentCategory::Iab17_21 => 263,
            ContentCategory::Iab17_22 => 264,
            ContentCategory::Iab17_23 => 265,
            ContentCategory::Iab17_24 => 266,
            ContentCategory::Iab17_25 => 267,
            ContentCategory::Iab17_26 => 268,
            ContentCategory::Iab17_27 => 269,
            ContentCategory::Iab17_28 => 270,
            ContentCategory::Iab17_29 => 271,
            ContentCategory::Iab17_30 => 272,
            ContentCategory::Iab17_31 => 273,
            ContentCategory::Iab17_32 => 274,
            ContentCategory::Iab17_33 => 275,
            ContentCategory::Iab17_34 => 276,
            ContentCategory::Iab17_35 => 277,
            ContentCategory::Iab17_36 => 278,
            ContentCategory::Iab17_37 => 279,
            ContentCategory::Iab17_38 => 280,
            ContentCategory::Iab17_39 => 281,
            ContentCategory::Iab17_40 => 282,
            ContentCategory::Iab17_41 => 283,
            ContentCategory::Iab17_42 => 284,
            ContentCategory::Iab17_43 => 285,
            ContentCategory::Iab17_44 => 286,
            ContentCategory::Iab18 => 287,
            ContentCategory::Iab18_1 => 288,
            ContentCategory::Iab18_2 => 289,
            ContentCategory::Iab18_3 => 290,
            ContentCategory::Iab18_4 => 291,
            ContentCategory::Iab18_5 => 292,
            ContentCategory::Iab18_6 => 293,
            ContentCategory::Iab19 => 294,
            ContentCategory::Iab19_1 => 295,
            ContentCategory::Iab19_2 => 296,
            ContentCategory::Iab19_3 => 297,
            ContentCategory::Iab19_4 => 298,
            ContentCategory::Iab19_5 => 299,
            ContentCategory::Iab19_6 => 300,
            ContentCategory::Iab19_7 => 301,
            ContentCategory::Iab19_8 => 302,
            ContentCategory::Iab19_9 => 303,
            ContentCategory::Iab19_10 => 304,
            ContentCategory::Iab19_11 => 305,
            ContentCategory::Iab19_12 => 306,
            ContentCategory::Iab19_13 => 307,
            ContentCategory::Iab19_14 => 308,
            ContentCategory::Iab19_15 => 309,
            ContentCategory::Iab19_16 => 310,
            ContentCategory::Iab19_17 => 311,
            ContentCategory::Iab19_18 => 312,
            ContentCategory::Iab19_19 => 313,
            ContentCategory::Iab19_20 => 314,
            ContentCategory::Iab19_21 => 315,
            ContentCategory::Iab19_22 => 316,
            ContentCategory::Iab19_23 => 317,
            ContentCategory::Iab19_24 => 318,
            ContentCategory::Iab19_25 => 319,
            ContentCategory::Iab19_26 => 320,
            ContentCategory::Iab19_27 => 321,
            ContentCategory::Iab19_28 => 322,
            ContentCategory::Iab19_29 => 323,
            ContentCategory::Iab19_30 => 324,
            ContentCategory::Iab19_31 => 325,
            ContentCategory::Iab19_32 => 326,
            ContentCategory::Iab19_33 => 327,
            ContentCategory::Iab19_34 => 328,
            ContentCategory::Iab19_35 => 329,
            ContentCategory::Iab19_36 => 330,
            ContentCategory::Iab20 => 331,
            ContentCategory::Iab20_1 => 332,
            ContentCategory::Iab20_2 => 333,
            ContentCategory::Iab20_3 => 334,
            ContentCategory::Iab20_4 => 335,
            ContentCategory::Iab20_5 => 336,
            ContentCategory::Iab20_6 => 337,
            ContentCategory::Iab20_7 => 338,
            ContentCategory::Iab20_8 => 339,
            ContentCategory::Iab20_9 => 340,
            ContentCategory::Iab20_10 => 341,
            ContentCategory::Iab20_11 => 342,
            ContentCategory::Iab20_12 => 343,
            ContentCategory::Iab20_13 => 344,
            ContentCategory::Iab20_14 => 345,
            ContentCategory::Iab20_15 => 346,
            ContentCategory::Iab20_16 => 347,
            ContentCategory::Iab20_17 => 348,
            ContentCategory::Iab20_18 => 349,
            ContentCategory::Iab20_19 => 350,
            ContentCategory::Iab20_20 => 351,
            ContentCategory::Iab20_21 => 352,
            ContentCategory::Iab20_22 => 353,
            ContentCategory::Iab20_23 => 354,
            ContentCategory::Iab20_24 => 355,
            ContentCategory::Iab20_25 => 356,
            ContentCategory::Iab20_26 => 357,
            ContentCategory::Iab20_27 => 358,
            ContentCategory::Iab21 => 359,
            ContentCategory::Iab21_1x => 360,
            ContentCategory::Iab21_2x => 361,
            ContentCategory::Iab21_3x => 362,
            ContentCategory::Iab22 => 363,
            ContentCategory::Iab22_1x => 364,
            ContentCategory::Iab22_2x => 365,
            ContentCategory::Iab22_3x => 366,
            ContentCategory::Iab22_4 => 367,
            ContentCategory::Iab23 => 368,
            ContentCategory::Iab23_1 => 369,
            ContentCategory::Iab23_2 => 370,
            ContentCategory::Iab23_3 => 371,
            ContentCategory::Iab23_4 => 372,
            ContentCategory::Iab23_5 => 373,
            ContentCategory::Iab23_6 => 374,
            ContentCategory::Iab23_7 => 375,
            ContentCategory::Iab23_8 => 376,
            ContentCategory::Iab23_9 => 377,
            ContentCategory::Iab23_10 => 378,
            ContentCategory::Iab24 => 379,
            ContentCategory::Iab25 => 380,
            ContentCategory::Iab25_1 => 381,
            ContentCategory::Iab25_2 => 382,
            ContentCategory::Iab25_3 => 383,
            ContentCategory::Iab25_4 => 384,
            ContentCategory::Iab25_5 => 385,
            ContentCategory::Iab25_6 => 386,
            ContentCategory::Iab25_7 => 387,
            ContentCategory::Iab26 => 388,
            ContentCategory::Iab26_1 => 389,
            ContentCategory::Iab26_2 => 390,
            ContentCategory::Iab26_3 => 391,
            ContentCategory::Iab26_4 => 392,
        }
    }

    fn from_code(code: i32) -> (member: Option<ContentCategory>) {
        match code {
            0 => Some(ContentCategory::Undefined),
            1 => Some(ContentCategory::Iab1),
            2 => Some(ContentCategory::Iab1_1),
            3 => Some(ContentCategory::Iab1_2),
            4 => Some(ContentCategory::Iab1_3),
            5 => Some(ContentCategory::Iab1_4),
            6 => Some(ContentCategory::Iab1_5),
            7 => Some(ContentCategory::Iab1_6),
            8 => Some(ContentCategory::Iab1_7),
            9 => Some(ContentCategory::Iab2),
            10 => Some(ContentCategory::Iab2_1),
            11 => Some(ContentCategory::Iab2_2),
            12 => Some(ContentCategory::Iab2_3),
            13 => Some(ContentCategory::Iab2_4),
            14 => Some(ContentCategory::Iab2_5),
            15 => Some(ContentCategory::Iab2_6),
            16 => Some(ContentCategory::Iab2_7),
            17 => Some(ContentCategory::Iab2_8),
            18 => Some(ContentCategory::Iab2_9),
            19 => Some(ContentCategory::Iab2_10),
            20 => Some(ContentCategory::Iab2_11),
            21 => Some(ContentCategory::Iab2_12),
            22 => Some(ContentCategory::Iab2_13),
            23 => Some(ContentCategory::Iab2_14),
            24 => Some(ContentCategory::Iab2_15),
            25 => Some(ContentCategory::Iab2_16),
            26 => Some(ContentCategory::Iab2_17),
            27 => Some(ContentCategory::Iab2_18),
            28 => Some(ContentCategory::Iab2_19),
            29 => Some(ContentCategory::Iab2_20),
            30 => Some(ContentCategory::Iab2_21),
            31 => Some(ContentCategory::Iab2_22),
            32 => Some(ContentCategory::Iab2_23),
            33 => Some(ContentCategory::Iab3),
            34 => Some(ContentCategory::Iab3_1),
            35 => Some(ContentCategory::Iab3_2),
            36 => Some(ContentCategory::Iab3_3),
            37 => Some(ContentCategory::Iab3_4),
            38 => Some(ContentCategory::Iab3_5),
            39 => Some(ContentCategory::Iab3_6),
            40 => Some(ContentCategory::Iab3_7),
            41 => Some(ContentCategory::Iab3_8),
            42 => Some(ContentCategory::Iab3_9),
            43 => Some(ContentCategory::Iab3_10),
            44 => Some(ContentCategory::Iab3_11),
            45 => Some(ContentCategory::Iab3_12),
            46 => Some(ContentCategory::Iab4),
            47 => Some(ContentCategory::Iab4_1),
            48 => Some(ContentCategory::Iab4_2),
            49 => Some(ContentCategory::Iab4_3),
            50 => Some(ContentCategory::Iab4_4),
            51 => Some(ContentCategory::Iab4_5),
            52 => Some(ContentCategory::Iab4_6),
            53 => Some(ContentCategory::Iab4_7),
            54 => Some(ContentCategory::Iab4_8),
            55 => Some(ContentCategory::Iab4_9),
            56 => Some(ContentCategory::Iab4_10),
            57 => Some(ContentCategory::Iab4_11),
            58 => Some(ContentCategory::Iab5),
            59 => Some(ContentCategory::Iab5_1),
            60 => Some(ContentCategory::Iab5_2),
            61 => Some(ContentCategory::Iab5_3),
            62 => Some(ContentCategory::Iab5_4),
            63 => Some(ContentCategory::Iab5_5),
            64 => Some(ContentCategory::Iab5_6),
            65 => Some(ContentCategory::Iab5_7),
            66 => Some(ContentCategory::Iab5_8),
            67 => Some(ContentCategory::Iab5_9),
            68 => Some(ContentCategory::Iab5_10),
            69 => Some(ContentCategory::Iab5_11),
            70 => Some(ContentCategory::Iab5_12),
            71 => Some(ContentCategory::Iab5_13),
            72 => Some(ContentCategory::Iab5_14),
            73 => Some(ContentCategory::Iab5_15),
            74 => Some(ContentCategory::Iab6),
            75 => Some(ContentCategory::Iab6_1),
            76 => Some(ContentCategory::Iab6_2),
            77 => Some(ContentCategory::Iab6_3),
            78 => Some(ContentCategory::Iab6_4),
            79 => Some(ContentCategory::Iab6_5),
            80 => Some(ContentCategory::Iab6_6),
            81 => Some(ContentCategory::Iab6_7),
            82 => Some(ContentCategory::Iab6_8),
            83 => Some(ContentCategory::Iab6_9),
            84 => Some(ContentCategory::Iab7),
            85 => Some(ContentCategory::Iab7_1),
            86 => Some(ContentCategory::Iab7_2),
            87 => Some(ContentCategory::Iab7_3),
            88 => Some(ContentCategory::Iab7_4),
            89 => Some(ContentCategory::Iab7_5),
            90 => Some(ContentCategory::Iab7_6),
            91 => Some(ContentCategory::Iab7_7),
            92 => Some(ContentCategory::Iab7_8),
            93 => Some(ContentCategory::Iab7_9),
            94 => Some(ContentCategory::Iab7_10),
            95 => Some(ContentCategory::Iab7_11),
            96 => Some(ContentCategory::Iab7_12),
            97 => Some(ContentCategory::Iab7_13),
            98 => Some(ContentCategory::Iab7_14),
            99 => Some(ContentCategory::Iab7_15),
            100 => Some(ContentCategory::Iab7_16),
            101 => Some(ContentCategory::Iab7_17),
            102 => Some(ContentCategory::Iab7_18),
            103 => Some(ContentCategory::Iab7_19),
            104 => Some(ContentCategory::Iab7_20),
            105 => Some(ContentCategory::Iab7_21),
            106 => Some(ContentCategory::Iab7_22),
            107 => Some(ContentCategory::Iab7_23),
            108 => Some(ContentCategory::Iab7_24),
            109 => Some(ContentCategory::Iab7_25),
            110 => Some(ContentCategory::Iab7_26),
            111 => Some(ContentCategory::Iab7_27),
            112 => Some(ContentCategory::Iab7_28),
            113 => Some(ContentCategory::Iab7_29),
            114 => Some(ContentCategory::Iab7_30),
            115 => Some(ContentCategory::Iab7_31),
            116 => Some(ContentCategory::Iab7_32),
            117 => Some(ContentCategory::Iab7_33),
            118 => Some(ContentCategory::Iab7_34),
            119 => Some(ContentCategory::Iab7_35),
            120 => Some(ContentCategory::Iab7_36),
            121 => Some(ContentCategory::Iab7_37),
            122 => Some(ContentCategory::Iab7_38),
            123 => Some(ContentCategory::Iab7_39),
            124 => Some(ContentCategory::Iab7_40),
            125 => Some(ContentCategory::Iab7_41),
            126 => Some(ContentCategory::Iab7_42),
            127 => Some(ContentCategory::Iab7_43),
            128 => Some(ContentCategory::Iab7_44),
            129 => Some(ContentCategory::Iab7_45),
            130 => Some(ContentCategory::Iab8),
            131 => Some(ContentCategory::Iab8_1),
            132 => Some(ContentCategory::Iab8_2),
            133 => Some(ContentCategory::Iab8_3),
            134 => Some(ContentCategory::Iab8_4),
            135 => Some(ContentCategory::Iab8_5),
            136 => Some(ContentCategory::Iab8_6),
            137 => Some(ContentCategory::Iab8_7),
            138 => Some(ContentCategory::Iab8_8),
            139 => Some(ContentCategory::Iab8_9),
            140 => Some(ContentCategory::Iab8_10),
            141 => Some(ContentCategory::Iab8_11),
            142 => Some(ContentCategory::Iab8_12),
            143 => Some(ContentCategory::Iab8_13),
            144 => Some(ContentCategory::Iab8_14),
            145 => Some(ContentCategory::Iab8_15),
            146 => Some(ContentCategory::Iab8_16),
            147 => Some(ContentCategory::Iab8_17),
            148 => Some(ContentCategory::Iab8_18),
            149 => Some(ContentCategory::Iab9),
            150 => Some(ContentCategory::Iab9_1),
            151 => Some(ContentCategory::Iab9_2),
            152 => Some(ContentCategory::Iab9_3),
            153 => Some(ContentCategory::Iab9_4),
            154 => Some(ContentCategory::Iab9_5),
            155 => Some(ContentCategory::Iab9_6),
            156 => Some(ContentCategory::Iab9_7),
            157 => Some(ContentCategory::Iab9_8),
            158 => Some(ContentCategory::Iab9_9),
            159 => Some(ContentCategory::Iab9_10),
            160 => Some(ContentCategory::Iab9_11),
            161 => Some(ContentCategory::Iab9_12),
            162 => Some(ContentCategory::Iab9_13),
            163 => Some(ContentCategory::Iab9_14),
            164 => Some(ContentCategory::Iab9_15),
            165 => Some(ContentCategory::Iab9_16),
            166 => Some(ContentCategory::Iab9_17),
            167 => Some(ContentCategory::Iab9_18),
            168 => Some(ContentCategory::Iab9_19),
            169 => Some(ContentCategory::Iab9_20),
            170 => Some(ContentCategory::Iab9_21),
            171 => Some(ContentCategory::Iab9_22),
            172 => Some(ContentCategory::Iab9_23),
            173 => Some(ContentCategory::Iab9_24),
            174 => Some(ContentCategory::Iab9_25),
            175 => Some(ContentCategory::Iab9_26),
            176 => Some(ContentCategory::Iab9_27),
            177 => Some(ContentCategory::Iab9_28),
            178 => Some(ContentCategory::Iab9_29),
            179 => Some(ContentCategory::Iab9_30),
            180 => Some(ContentCategory::Iab9_31),
            181 => Some(ContentCategory::Iab10),
            182 => Some(ContentCategory::Iab10_1),
            183 => Some(ContentCategory::Iab10_2),
            184 => Some(ContentCategory::Iab10_3),
            185 => Some(ContentCategory::Iab10_4),
            186 => Some(ContentCategory::Iab10_5),
            187 => Some(ContentCategory::Iab10_6),
            188 => Some(ContentCategory::Iab10_7),
            189 => Some(ContentCategory::Iab10_8),
            190 => Some(ContentCategory::Iab10_9),
            191 => Some(ContentCategory::Iab11),
            192 => Some(ContentCategory::Iab11_1),
            193 => Some(ContentCategory::Iab11_2),
            194 => Some(ContentCategory::Iab11_3),
            195 => Some(ContentCategory::Iab11_4),
            196 => Some(ContentCategory::Iab11_5),
            197 => Some(ContentCategory::Iab12),
            198 => Some(ContentCategory::Iab12_1),
            199 => Some(ContentCategory::Iab12_2),
            200 => Some(ContentCategory::Iab12_3),
            201 => Some(ContentCategory::Iab13),
            202 => Some(ContentCategory::Iab13_1),
            203 => Some(ContentCategory::Iab13_2),
            204 => Some(ContentCategory::Iab13_3),
            205 => Some(ContentCategory::Iab13_4),
            206 => Some(ContentCategory::Iab13_5),
            207 => Some(ContentCategory::Iab13_6),
            208 => Some(ContentCategory::Iab13_7),
            209 => Some(ContentCategory::Iab13_8),
            210 => Some(ContentCategory::Iab13_9),
            211 => Some(ContentCategory::Iab13_10),
            212 => Some(ContentCategory::Iab13_11),
            213 => Some(ContentCategory::Iab13_12),
            214 => Some(ContentCategory::Iab14),
            215 => Some(ContentCategory::Iab14_1),
            216 => Some(ContentCategory::Iab14_2),
            217 => Some(ContentCategory::Iab14_3),
            218 => Some(ContentCategory::Iab14_4),
            219 => Some(ContentCategory::Iab14_5),
            220 => Some(ContentCategory::Iab14_6),
            221 => Some(ContentCategory::Iab14_7),
            222 => Some(ContentCategory::Iab14_8),
            223 => Some(ContentCategory::Iab15),
            224 => Some(ContentCategory::Iab15_1),
            225 => Some(ContentCategory::Iab15_2),
            226 => Some(ContentCategory::Iab15_3),
            227 => Some(ContentCategory::Iab15_4),
            228 => Some(ContentCategory::Iab15_5),
            229 => Some(ContentCategory::Iab15_6),
            230 => Some(ContentCategory::Iab15_7),
            231 => Some(ContentCategory::Iab15_8),
            232 => Some(ContentCategory::Iab15_9),
            233 => Some(ContentCategory::Iab15_10),
            234 => Some(ContentCategory::Iab16),
            235 => Some(ContentCategory::Iab16_1),
            236 => Some(ContentCategory::Iab16_2),
            237 => Some(ContentCategory::Iab16_3),
            238 => Some(ContentCategory::Iab16_4),
            239 => Some(ContentCategory::Iab16_5),
            240 => Some(ContentCategory::Iab16_6),
            241 => Some(ContentCategory::Iab16_7),
            242 => Some(ContentCategory::Iab17),
            243 => Some(ContentCategory::Iab17_1),
            244 => Some(ContentCategory::Iab17_2),
            245 => Some(ContentCategory::Iab17_3),
            246 => Some(ContentCategory::Iab17_4),
            247 => Some(ContentCategory::Iab17_5),
            248 => Some(ContentCategory::Iab17_6),
            249 => Some(ContentCategory::Iab17_7),
            250 => Some(ContentCategory::Iab17_8),
            251 => Some(ContentCategory::Iab17_9),
            252 => Some(ContentCategory::Iab17_10),
            253 => Some(ContentCategory::Iab17_11),
            254 => Some(ContentCategory::Iab17_12),
            255 => Some(ContentCategory::Iab17_13),
            256 => Some(ContentCategory::Iab17_14),
            257 => Some(ContentCategory::Iab17_15),
            258 => Some(ContentCategory::Iab17_16),
            259 => Some(ContentCategory::Iab17_17),
            260 => Some(ContentCategory::Iab17_18),
            261 => Some(ContentCategory::Iab17_19),
            262 => Some(ContentCategory::Iab17_20),
            263 => Some(ContentCategory::Iab17_21),
            264 => Some(ContentCategory::Iab17_22),
            265 => Some(ContentCategory::Iab17_23),
            266 => Some(ContentCategory::Iab17_24),
            267 => Some(ContentCategory::Iab17_25),
            268 => Some(ContentCategory::Iab17_26),
            269 => Some(ContentCategory::Iab17_27),
            270 => Some(ContentCategory::Iab17_28),
            271 => Some(ContentCategory::Iab17_29),
            272 => Some(ContentCategory::Iab17_30),
            273 => Some(ContentCategory::Iab17_31),
            274 => Some(ContentCategory::Iab17_32),
            275 => Some(ContentCategory::Iab17_33),
            276 => Some(ContentCategory::Iab17_34),
            277 => Some(ContentCategory::Iab17_35),
            278 => Some(ContentCategory::Iab17_36),
            279 => Some(ContentCategory::Iab17_37),
            280 => Some(ContentCategory::Iab17_38),
            281 => Some(ContentCategory::Iab17_39),
            282 => Some(ContentCategory::Iab17_40),
            283 => Some(ContentCategory::Iab17_41),
            284 => Some(ContentCategory::Iab17_42),
            285 => Some(ContentCategory::Iab17_43),
            286 => Some(ContentCategory::Iab17_44),
            287 => Some(ContentCategory::Iab18),
            288 => Some(ContentCategory::Iab18_1),
            289 => Some(ContentCategory::Iab18_2),
            290 => Some(ContentCategory::Iab18_3),
            291 => Some(ContentCategory::Iab18_4),
            292 => Some(ContentCategory::Iab18_5),
            293 => Some(ContentCategory::Iab18_6),
            294 => Some(ContentCategory::Iab19),
            295 => Some(ContentCategory::Iab19_1),
            296 => Some(ContentCategory::Iab19_2),
            297 => Some(ContentCategory::Iab19_3),
            298 => Some(ContentCategory::Iab19_4),
            299 => Some(ContentCategory::Iab19_5),
            300 => Some(ContentCategory::Iab19_6),
            301 => Some(ContentCategory::Iab19_7),
            302 => Some(ContentCategory::Iab19_8),
            303 => Some(ContentCategory::Iab19_9),
            304 => Some(ContentCategory::Iab19_10),
            305 => Some(ContentCategory::Iab19_11),
            306 => Some(ContentCategory::Iab19_12),
            307 => Some(ContentCategory::Iab19_13),
            308 => Some(ContentCategory::Iab19_14),
            309 => Some(ContentCategory::Iab19_15),
            310 => Some(ContentCategory::Iab19_16),
            311 => Some(ContentCategory::Iab19_17),
            312 => Some(ContentCategory::Iab19_18),
            313 => Some(ContentCategory::Iab19_19),
            314 => Some(ContentCategory::Iab19_20),
            315 => Some(ContentCategory::Iab19_21),
            316 => Some(ContentCategory::Iab19_22),
            317 => Some(ContentCategory::Iab19_23),
            318 => Some(ContentCategory::Iab19_24),
            319 => Some(ContentCategory::Iab19_25),
            320 => Some(ContentCategory::Iab19_26),
            321 => Some(ContentCategory::Iab19_27),
            322 => Some(ContentCategory::Iab19_28),
            323 => Some(ContentCategory::Iab19_29),
            324 => Some(ContentCategory::Iab19_30),
            325 => Some(ContentCategory::Iab19_31),
            326 => Some(ContentCategory::Iab19_32),
            327 => Some(ContentCategory::Iab19_33),
            328 => Some(ContentCategory::Iab19_34),
            329 => Some(ContentCategory::Iab19_35),
            330 => Some(ContentCategory::Iab19_36),
            331 => Some(ContentCategory::Iab20),
            332 => Some(ContentCategory::Iab20_1),
            333 => Some(ContentCategory::Iab20_2),
            334 => Some(ContentCategory::Iab20_3),
            335 => Some(ContentCategory::Iab20_4),
            336 => Some(ContentCategory::Iab20_5),
            337 => Some(ContentCategory::Iab20_6),
            338 => Some(ContentCategory::Iab20_7),
            339 => Some(ContentCategory::Iab20_8),
            340 => Some(ContentCategory::Iab20_9),
            341 => Some(ContentCategory::Iab20_10),
            342 => Some(ContentCategory::Iab20_11),
            343 => Some(ContentCategory::Iab20_12),
            344 => Some(ContentCategory::Iab20_13),
            345 => Some(ContentCategory::Iab20_14),
            346 => Some(ContentCategory::Iab20_15),
            347 => Some(ContentCategory::Iab20_16),
            348 => Some(ContentCategory::Iab20_17),
            349 => Some(ContentCategory::Iab20_18),
            350 => Some(ContentCategory::Iab20_19),
            351 => Some(ContentCategory::Iab20_20),
            352 => Some(ContentCategory::Iab20_21),
            353 => Some(ContentCategory::Iab20_22),
            354 => Some(ContentCategory::Iab20_23),
            355 => Some(ContentCategory::Iab20_24),
            356 => Some(ContentCategory::Iab20_25),
            357 => Some(ContentCategory::Iab20_26),
            358 => Some(ContentCategory::Iab20_27),
            359 => Some(ContentCategory::Iab21),
            360 => Some(ContentCategory::Iab21_1x),
            361 => Some(ContentCategory::Iab21_2x),
            362 => Some(ContentCategory::Iab21_3x),
            363 => Some(ContentCategory::Iab22),
            364 => Some(ContentCategory::Iab22_1x),
            365 => Some(ContentCategory::Iab22_2x),
            366 => Some(ContentCategory::Iab22_3x),
            367 => Some(ContentCategory::Iab22_4),
            368 => Some(ContentCategory::Iab23),
            369 => Some(ContentCategory::Iab23_1),
            370 => Some(ContentCategory::Iab23_2),
            371 => Some(ContentCategory::Iab23_3),
            372 => Some(ContentCategory::Iab23_4),
            373 => Some(ContentCategory::Iab23_5),
            374 => Some(ContentCategory::Iab23_6),
            375 => Some(ContentCategory::Iab23_7),
            376 => Some(ContentCategory::Iab23_8),
            377 => Some(ContentCategory::Iab23_9),
            378 => Some(ContentCategory::Iab23_10),
            379 => Some(ContentCategory::Iab24),
            380 => Some(ContentCategory::Iab25),
            381 => Some(ContentCategory::Iab25_1),
            382 => Some(ContentCategory::Iab25_2),
            383 => Some(ContentCategory::Iab25_3),
            384 => Some(ContentCategory::Iab25_4),
            385 => Some(ContentCategory::Iab25_5),
            386 => Some(ContentCategory::Iab25_6),
            387 => Some(ContentCategory::Iab25_7),
            388 => Some(ContentCategory::Iab26),
            389 => Some(ContentCategory::Iab26_1),
            390 => Some(ContentCategory::Iab26_2),
            391 => Some(ContentCategory::Iab26_3),
            392 => Some(ContentCategory::Iab26_4),
            _ => None,
        }
    }

    proof fn lemma_deep_view(self) {
    }

    proof fn lemma_code_round_trip(self) {
    }

    #[verifier::rlimit(100)]
    proof fn lemma_from_code_sound(code: i32) {
        if 0 <= code <= 392 {
            assert(Self::from_code_spec(code) is Some);
        }
    }
}

} // verus!
