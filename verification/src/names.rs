//! Human-readable job and zone names.

use vstd::prelude::*;

verus! {

/// The abbreviation of job `job` (warrior is 1, rune fencer 22), if it has one.
pub open spec fn spec_job_name(job: u8) -> Option<Seq<char>> {
    if job == 1 {
        Some("WAR"@)
    } else if job == 2 {
        Some("MNK"@)
    } else if job == 3 {
        Some("WHM"@)
    } else if job == 4 {
        Some("BLM"@)
    } else if job == 5 {
        Some("RDM"@)
    } else if job == 6 {
        Some("THF"@)
    } else if job == 7 {
        Some("PLD"@)
    } else if job == 8 {
        Some("DRK"@)
    } else if job == 9 {
        Some("BST"@)
    } else if job == 10 {
        Some("BRD"@)
    } else if job == 11 {
        Some("RNG"@)
    } else if job == 12 {
        Some("SAM"@)
    } else if job == 13 {
        Some("NIN"@)
    } else if job == 14 {
        Some("DRG"@)
    } else if job == 15 {
        Some("SMN"@)
    } else if job == 16 {
        Some("BLU"@)
    } else if job == 17 {
        Some("COR"@)
    } else if job == 18 {
        Some("PUP"@)
    } else if job == 19 {
        Some("DNC"@)
    } else if job == 20 {
        Some("SCH"@)
    } else if job == 21 {
        Some("GEO"@)
    } else if job == 22 {
        Some("RUN"@)
    } else {
        None
    }
}

/// The abbreviation of job `job`, if it has one.
pub fn job_name(job: u8) -> (name: Option<&'static str>)
    ensures
        match name {
            Some(n) => spec_job_name(job) == Some(n@),
            None => spec_job_name(job) is None,
        },
{
    match job {
        1 => Some("WAR"),
        2 => Some("MNK"),
        3 => Some("WHM"),
        4 => Some("BLM"),
        5 => Some("RDM"),
        6 => Some("THF"),
        7 => Some("PLD"),
        8 => Some("DRK"),
        9 => Some("BST"),
        10 => Some("BRD"),
        11 => Some("RNG"),
        12 => Some("SAM"),
        13 => Some("NIN"),
        14 => Some("DRG"),
        15 => Some("SMN"),
        16 => Some("BLU"),
        17 => Some("COR"),
        18 => Some("PUP"),
        19 => Some("DNC"),
        20 => Some("SCH"),
        21 => Some("GEO"),
        22 => Some("RUN"),
        _ => None,
    }
}

/// The name of zone `zone`, numbered as LandSandBoat numbers zones, if it has one.
pub open spec fn spec_zone_name(zone: u16) -> Option<Seq<char>> {
    match zone {
        1 => Some("Phanauet Channel"@),
        2 => Some("Carpenters' Landing"@),
        3 => Some("Manaclipper"@),
        4 => Some("Bibiki Bay"@),
        5 => Some("Uleguerand Range"@),
        6 => Some("Bearclaw Pinnacle"@),
        7 => Some("Attohwa Chasm"@),
        8 => Some("Boneyard Gully"@),
        9 => Some("Pso'Xja"@),
        10 => Some("The Shrouded Maw"@),
        11 => Some("Oldton Movalpolos"@),
        12 => Some("Newton Movalpolos"@),
        13 => Some("Mine Shaft #2716"@),
        14 => Some("Hall of Transference"@),
        15 => Some("Abyssea - Konschtat"@),
        16 => Some("Promyvion - Holla"@),
        17 => Some("Spire of Holla"@),
        18 => Some("Promyvion - Dem"@),
        19 => Some("Spire of Dem"@),
        20 => Some("Promyvion - Mea"@),
        21 => Some("Spire of Mea"@),
        22 => Some("Promyvion - Vahzl"@),
        23 => Some("Spire of Vahzl"@),
        24 => Some("Lufaise Meadows"@),
        25 => Some("Misareaux Coast"@),
        26 => Some("Tavnazian Safehold"@),
        27 => Some("Phomiuna Aqueducts"@),
        28 => Some("Sacrarium"@),
        29 => Some("Riverne - Site #B01"@),
        30 => Some("Riverne - Site #A01"@),
        31 => Some("Monarch Linn"@),
        32 => Some("Sealion's Den"@),
        33 => Some("Al'Taieu"@),
        34 => Some("Grand Palace of Hu'Xzoi"@),
        35 => Some("The Garden of Ru'Hmet"@),
        36 => Some("Empyreal Paradox"@),
        37 => Some("Temenos"@),
        38 => Some("Apollyon"@),
        39 => Some("Dynamis - Valkurm"@),
        40 => Some("Dynamis - Buburimu"@),
        41 => Some("Dynamis - Qufim"@),
        42 => Some("Dynamis - Tavnazia"@),
        43 => Some("Diorama Abdhaljs-Ghelsba"@),
        44 => Some("Abdhaljs Isle-Purgonorgo"@),
        45 => Some("Abyssea - Tahrongi"@),
        46 => Some("Open sea route to Al Zahbi"@),
        47 => Some("Open sea route to Mhaura"@),
        48 => Some("Al Zahbi"@),
        50 => Some("Aht Urhgan Whitegate"@),
        51 => Some("Wajaom Woodlands"@),
        52 => Some("Bhaflau Thickets"@),
        53 => Some("Nashmau"@),
        54 => Some("Arrapago Reef"@),
        55 => Some("Ilrusi Atoll"@),
        56 => Some("Periqia"@),
        57 => Some("Talacca Cove"@),
        58 => Some("Silver Sea route to Nashmau"@),
        59 => Some("Silver Sea route to Al Zahbi"@),
        60 => Some("The Ashu Talif"@),
        61 => Some("Mount Zhayolm"@),
        62 => Some("Halvung"@),
        63 => Some("Lebros Cavern"@),
        64 => Some("Navukgo Execution Chamber"@),
        65 => Some("Mamook"@),
        66 => Some("Mamool Ja Training Grounds"@),
        67 => Some("Jade Sepulcher"@),
        68 => Some("Aydeewa Subterrane"@),
        69 => Some("Leujaoam Sanctum"@),
        70 => Some("Chocobo Circuit"@),
        71 => Some("The Colosseum"@),
        72 => Some("Alzadaal Undersea Ruins"@),
        73 => Some("Zhayolm Remnants"@),
        74 => Some("Arrapago Remnants"@),
        75 => Some("Bhaflau Remnants"@),
        76 => Some("Silver Sea Remnants"@),
        77 => Some("Nyzul Isle"@),
        78 => Some("Hazhalm Testing Grounds"@),
        79 => Some("Caedarva Mire"@),
        80 => Some("Southern San d'Oria [S]"@),
        81 => Some("East Ronfaure [S]"@),
        82 => Some("Jugner Forest [S]"@),
        83 => Some("Vunkerl Inlet [S]"@),
        84 => Some("Batallia Downs [S]"@),
        85 => Some("La Vaule [S]"@),
        86 => Some("Everbloom Hollow"@),
        87 => Some("Bastok Markets [S]"@),
        88 => Some("North Gustaberg [S]"@),
        89 => Some("Grauberg [S]"@),
        90 => Some("Pashhow Marshlands [S]"@),
        91 => Some("Rolanberry Fields [S]"@),
        92 => Some("Beadeaux [S]"@),
        93 => Some("Ruhotz Silvermines"@),
        94 => Some("Windurst Waters [S]"@),
        95 => Some("West Sarutabaruta [S]"@),
        96 => Some("Fort Karugo-Narugo [S]"@),
        97 => Some("Meriphataud Mountains [S]"@),
        98 => Some("Sauromugue Champaign [S]"@),
        99 => Some("Castle Oztroja [S]"@),
        100 => Some("West Ronfaure"@),
        101 => Some("East Ronfaure"@),
        102 => Some("La Theine Plateau"@),
        103 => Some("Valkurm Dunes"@),
        104 => Some("Jugner Forest"@),
        105 => Some("Batallia Downs"@),
        106 => Some("North Gustaberg"@),
        107 => Some("South Gustaberg"@),
        108 => Some("Konschtat Highlands"@),
        109 => Some("Pashhow Marshlands"@),
        110 => Some("Rolanberry Fields"@),
        111 => Some("Beaucedine Glacier"@),
        112 => Some("Xarcabard"@),
        113 => Some("Cape Teriggan"@),
        114 => Some("Eastern Altepa Desert"@),
        115 => Some("West Sarutabaruta"@),
        116 => Some("East Sarutabaruta"@),
        117 => Some("Tahrongi Canyon"@),
        118 => Some("Buburimu Peninsula"@),
        119 => Some("Meriphataud Mountains"@),
        120 => Some("Sauromugue Champaign"@),
        121 => Some("The Sanctuary of Zi'Tah"@),
        122 => Some("Ro'Maeve"@),
        123 => Some("Yuhtunga Jungle"@),
        124 => Some("Yhoator Jungle"@),
        125 => Some("Western Altepa Desert"@),
        126 => Some("Qufim Island"@),
        127 => Some("Behemoth's Dominion"@),
        128 => Some("Valley of Sorrows"@),
        129 => Some("Ghoyu's Reverie"@),
        130 => Some("Ru'Aun Gardens"@),
        131 => Some("Mordion Gaol"@),
        132 => Some("Abyssea - La Theine"@),
        134 => Some("Dynamis - Beaucedine"@),
        135 => Some("Dynamis - Xarcabard"@),
        136 => Some("Beaucedine Glacier [S]"@),
        137 => Some("Xarcabard [S]"@),
        138 => Some("Castle Zvahl Baileys [S]"@),
        139 => Some("Horlais Peak"@),
        140 => Some("Ghelsba Outpost"@),
        141 => Some("Fort Ghelsba"@),
        142 => Some("Yughott Grotto"@),
        143 => Some("Palborough Mines"@),
        144 => Some("Waughroon Shrine"@),
        145 => Some("Giddeus"@),
        146 => Some("Balga's Dais"@),
        147 => Some("Beadeaux"@),
        148 => Some("Qulun Dome"@),
        149 => Some("Davoi"@),
        150 => Some("Monastic Cavern"@),
        151 => Some("Castle Oztroja"@),
        152 => Some("Altar Room"@),
        153 => Some("The Boyahda Tree"@),
        154 => Some("Dragon's Aery"@),
        155 => Some("Castle Zvahl Keep [S]"@),
        156 => Some("Throne Room [S]"@),
        157 => Some("Middle Delkfutt's Tower"@),
        158 => Some("Upper Delkfutt's Tower"@),
        159 => Some("Temple of Uggalepih"@),
        160 => Some("Den of Rancor"@),
        161 => Some("Castle Zvahl Baileys"@),
        162 => Some("Castle Zvahl Keep"@),
        163 => Some("Sacrificial Chamber"@),
        164 => Some("Garlaige Citadel [S]"@),
        165 => Some("Throne Room"@),
        166 => Some("Ranguemont Pass"@),
        167 => Some("Bostaunieux Oubliette"@),
        168 => Some("Chamber of Oracles"@),
        169 => Some("Toraimarai Canal"@),
        170 => Some("Full Moon Fountain"@),
        171 => Some("Crawlers' Nest [S]"@),
        172 => Some("Zeruhn Mines"@),
        173 => Some("Korroloka Tunnel"@),
        174 => Some("Kuftal Tunnel"@),
        175 => Some("The Eldieme Necropolis [S]"@),
        176 => Some("Sea Serpent Grotto"@),
        177 => Some("Ve'Lugannon Palace"@),
        178 => Some("The Shrine of Ru'Avitau"@),
        179 => Some("Stellar Fulcrum"@),
        180 => Some("La'Loff Amphitheater"@),
        181 => Some("The Celestial Nexus"@),
        182 => Some("Walk of Echoes"@),
        183 => Some("Maquette Abdhaljs-Legion"@),
        184 => Some("Lower Delkfutt's Tower"@),
        185 => Some("Dynamis - San d'Oria"@),
        186 => Some("Dynamis - Bastok"@),
        187 => Some("Dynamis - Windurst"@),
        188 => Some("Dynamis - Jeuno"@),
        190 => Some("King Ranperre's Tomb"@),
        191 => Some("Dangruf Wadi"@),
        192 => Some("Inner Horutoto Ruins"@),
        193 => Some("Ordelle's Caves"@),
        194 => Some("Outer Horutoto Ruins"@),
        195 => Some("The Eldieme Necropolis"@),
        196 => Some("Gusgen Mines"@),
        197 => Some("Crawlers' Nest"@),
        198 => Some("Maze of Shakhrami"@),
        200 => Some("Garlaige Citadel"@),
        201 => Some("Cloister of Gales"@),
        202 => Some("Cloister of Storms"@),
        203 => Some("Cloister of Frost"@),
        204 => Some("Fei'Yin"@),
        205 => Some("Ifrit's Cauldron"@),
        206 => Some("Qu'Bia Arena"@),
        207 => Some("Cloister of Flames"@),
        208 => Some("Quicksand Caves"@),
        209 => Some("Cloister of Tremors"@),
        210 => Some("GM Home"@),
        211 => Some("Cloister of Tides"@),
        212 => Some("Gustav Tunnel"@),
        213 => Some("Labyrinth of Onzozo"@),
        214 => Some("Residential Area"@),
        215 => Some("Abyssea - Attohwa"@),
        216 => Some("Abyssea - Misareaux"@),
        217 => Some("Abyssea - Vunkerl"@),
        218 => Some("Abyssea - Altepa"@),
        220 => Some("Ship bound for Selbina"@),
        221 => Some("Ship bound for Mhaura"@),
        222 => Some("Provenance"@),
        223 => Some("San d'Oria-Jeuno Airship"@),
        224 => Some("Bastok-Jeuno Airship"@),
        225 => Some("Windurst-Jeuno Airship"@),
        226 => Some("Kazham-Jeuno Airship"@),
        227 => Some("Ship bound for Selbina (pirates)"@),
        228 => Some("Ship bound for Mhaura (pirates)"@),
        230 => Some("Southern San d'Oria"@),
        231 => Some("Northern San d'Oria"@),
        232 => Some("Port San d'Oria"@),
        233 => Some("Chateau d'Oraguille"@),
        234 => Some("Bastok Mines"@),
        235 => Some("Bastok Markets"@),
        236 => Some("Port Bastok"@),
        237 => Some("Metalworks"@),
        238 => Some("Windurst Waters"@),
        239 => Some("Windurst Walls"@),
        240 => Some("Port Windurst"@),
        241 => Some("Windurst Woods"@),
        242 => Some("Heavens Tower"@),
        243 => Some("Ru'Lude Gardens"@),
        244 => Some("Upper Jeuno"@),
        245 => Some("Lower Jeuno"@),
        246 => Some("Port Jeuno"@),
        247 => Some("Rabao"@),
        248 => Some("Selbina"@),
        249 => Some("Mhaura"@),
        250 => Some("Kazham"@),
        251 => Some("Hall of the Gods"@),
        252 => Some("Norg"@),
        253 => Some("Abyssea - Uleguerand"@),
        254 => Some("Abyssea - Grauberg"@),
        255 => Some("Abyssea - Empyreal Paradox"@),
        256 => Some("Western Adoulin"@),
        257 => Some("Eastern Adoulin"@),
        258 => Some("Rala Waterways"@),
        _ => None,
    }
}

/// The name of zone `zone`, if it has one.
pub fn zone_name(zone: u16) -> (name: Option<&'static str>)
    ensures
        match name {
            Some(n) => spec_zone_name(zone) == Some(n@),
            None => spec_zone_name(zone) is None,
        },
{
    match zone {
        1 => Some("Phanauet Channel"),
        2 => Some("Carpenters' Landing"),
        3 => Some("Manaclipper"),
        4 => Some("Bibiki Bay"),
        5 => Some("Uleguerand Range"),
        6 => Some("Bearclaw Pinnacle"),
        7 => Some("Attohwa Chasm"),
        8 => Some("Boneyard Gully"),
        9 => Some("Pso'Xja"),
        10 => Some("The Shrouded Maw"),
        11 => Some("Oldton Movalpolos"),
        12 => Some("Newton Movalpolos"),
        13 => Some("Mine Shaft #2716"),
        14 => Some("Hall of Transference"),
        15 => Some("Abyssea - Konschtat"),
        16 => Some("Promyvion - Holla"),
        17 => Some("Spire of Holla"),
        18 => Some("Promyvion - Dem"),
        19 => Some("Spire of Dem"),
        20 => Some("Promyvion - Mea"),
        21 => Some("Spire of Mea"),
        22 => Some("Promyvion - Vahzl"),
        23 => Some("Spire of Vahzl"),
        24 => Some("Lufaise Meadows"),
        25 => Some("Misareaux Coast"),
        26 => Some("Tavnazian Safehold"),
        27 => Some("Phomiuna Aqueducts"),
        28 => Some("Sacrarium"),
        29 => Some("Riverne - Site #B01"),
        30 => Some("Riverne - Site #A01"),
        31 => Some("Monarch Linn"),
        32 => Some("Sealion's Den"),
        33 => Some("Al'Taieu"),
        34 => Some("Grand Palace of Hu'Xzoi"),
        35 => Some("The Garden of Ru'Hmet"),
        36 => Some("Empyreal Paradox"),
        37 => Some("Temenos"),
        38 => Some("Apollyon"),
        39 => Some("Dynamis - Valkurm"),
        40 => Some("Dynamis - Buburimu"),
        41 => Some("Dynamis - Qufim"),
        42 => Some("Dynamis - Tavnazia"),
        43 => Some("Diorama Abdhaljs-Ghelsba"),
        44 => Some("Abdhaljs Isle-Purgonorgo"),
        45 => Some("Abyssea - Tahrongi"),
        46 => Some("Open sea route to Al Zahbi"),
        47 => Some("Open sea route to Mhaura"),
        48 => Some("Al Zahbi"),
        50 => Some("Aht Urhgan Whitegate"),
        51 => Some("Wajaom Woodlands"),
        52 => Some("Bhaflau Thickets"),
        53 => Some("Nashmau"),
        54 => Some("Arrapago Reef"),
        55 => Some("Ilrusi Atoll"),
        56 => Some("Periqia"),
        57 => Some("Talacca Cove"),
        58 => Some("Silver Sea route to Nashmau"),
        59 => Some("Silver Sea route to Al Zahbi"),
        60 => Some("The Ashu Talif"),
        61 => Some("Mount Zhayolm"),
        62 => Some("Halvung"),
        63 => Some("Lebros Cavern"),
        64 => Some("Navukgo Execution Chamber"),
        65 => Some("Mamook"),
        66 => Some("Mamool Ja Training Grounds"),
        67 => Some("Jade Sepulcher"),
        68 => Some("Aydeewa Subterrane"),
        69 => Some("Leujaoam Sanctum"),
        70 => Some("Chocobo Circuit"),
        71 => Some("The Colosseum"),
        72 => Some("Alzadaal Undersea Ruins"),
        73 => Some("Zhayolm Remnants"),
        74 => Some("Arrapago Remnants"),
        75 => Some("Bhaflau Remnants"),
        76 => Some("Silver Sea Remnants"),
        77 => Some("Nyzul Isle"),
        78 => Some("Hazhalm Testing Grounds"),
        79 => Some("Caedarva Mire"),
        80 => Some("Southern San d'Oria [S]"),
        81 => Some("East Ronfaure [S]"),
        82 => Some("Jugner Forest [S]"),
        83 => Some("Vunkerl Inlet [S]"),
        84 => Some("Batallia Downs [S]"),
        85 => Some("La Vaule [S]"),
        86 => Some("Everbloom Hollow"),
        87 => Some("Bastok Markets [S]"),
        88 => Some("North Gustaberg [S]"),
        89 => Some("Grauberg [S]"),
        90 => Some("Pashhow Marshlands [S]"),
        91 => Some("Rolanberry Fields [S]"),
        92 => Some("Beadeaux [S]"),
        93 => Some("Ruhotz Silvermines"),
        94 => Some("Windurst Waters [S]"),
        95 => Some("West Sarutabaruta [S]"),
        96 => Some("Fort Karugo-Narugo [S]"),
        97 => Some("Meriphataud Mountains [S]"),
        98 => Some("Sauromugue Champaign [S]"),
        99 => Some("Castle Oztroja [S]"),
        100 => Some("West Ronfaure"),
        101 => Some("East Ronfaure"),
        102 => Some("La Theine Plateau"),
        103 => Some("Valkurm Dunes"),
        104 => Some("Jugner Forest"),
        105 => Some("Batallia Downs"),
        106 => Some("North Gustaberg"),
        107 => Some("South Gustaberg"),
        108 => Some("Konschtat Highlands"),
        109 => Some("Pashhow Marshlands"),
        110 => Some("Rolanberry Fields"),
        111 => Some("Beaucedine Glacier"),
        112 => Some("Xarcabard"),
        113 => Some("Cape Teriggan"),
        114 => Some("Eastern Altepa Desert"),
        115 => Some("West Sarutabaruta"),
        116 => Some("East Sarutabaruta"),
        117 => Some("Tahrongi Canyon"),
        118 => Some("Buburimu Peninsula"),
        119 => Some("Meriphataud Mountains"),
        120 => Some("Sauromugue Champaign"),
        121 => Some("The Sanctuary of Zi'Tah"),
        122 => Some("Ro'Maeve"),
        123 => Some("Yuhtunga Jungle"),
        124 => Some("Yhoator Jungle"),
        125 => Some("Western Altepa Desert"),
        126 => Some("Qufim Island"),
        127 => Some("Behemoth's Dominion"),
        128 => Some("Valley of Sorrows"),
        129 => Some("Ghoyu's Reverie"),
        130 => Some("Ru'Aun Gardens"),
        131 => Some("Mordion Gaol"),
        132 => Some("Abyssea - La Theine"),
        134 => Some("Dynamis - Beaucedine"),
        135 => Some("Dynamis - Xarcabard"),
        136 => Some("Beaucedine Glacier [S]"),
        137 => Some("Xarcabard [S]"),
        138 => Some("Castle Zvahl Baileys [S]"),
        139 => Some("Horlais Peak"),
        140 => Some("Ghelsba Outpost"),
        141 => Some("Fort Ghelsba"),
        142 => Some("Yughott Grotto"),
        143 => Some("Palborough Mines"),
        144 => Some("Waughroon Shrine"),
        145 => Some("Giddeus"),
        146 => Some("Balga's Dais"),
        147 => Some("Beadeaux"),
        148 => Some("Qulun Dome"),
        149 => Some("Davoi"),
        150 => Some("Monastic Cavern"),
        151 => Some("Castle Oztroja"),
        152 => Some("Altar Room"),
        153 => Some("The Boyahda Tree"),
        154 => Some("Dragon's Aery"),
        155 => Some("Castle Zvahl Keep [S]"),
        156 => Some("Throne Room [S]"),
        157 => Some("Middle Delkfutt's Tower"),
        158 => Some("Upper Delkfutt's Tower"),
        159 => Some("Temple of Uggalepih"),
        160 => Some("Den of Rancor"),
        161 => Some("Castle Zvahl Baileys"),
        162 => Some("Castle Zvahl Keep"),
        163 => Some("Sacrificial Chamber"),
        164 => Some("Garlaige Citadel [S]"),
        165 => Some("Throne Room"),
        166 => Some("Ranguemont Pass"),
        167 => Some("Bostaunieux Oubliette"),
        168 => Some("Chamber of Oracles"),
        169 => Some("Toraimarai Canal"),
        170 => Some("Full Moon Fountain"),
        171 => Some("Crawlers' Nest [S]"),
        172 => Some("Zeruhn Mines"),
        173 => Some("Korroloka Tunnel"),
        174 => Some("Kuftal Tunnel"),
        175 => Some("The Eldieme Necropolis [S]"),
        176 => Some("Sea Serpent Grotto"),
        177 => Some("Ve'Lugannon Palace"),
        178 => Some("The Shrine of Ru'Avitau"),
        179 => Some("Stellar Fulcrum"),
        180 => Some("La'Loff Amphitheater"),
        181 => Some("The Celestial Nexus"),
        182 => Some("Walk of Echoes"),
        183 => Some("Maquette Abdhaljs-Legion"),
        184 => Some("Lower Delkfutt's Tower"),
        185 => Some("Dynamis - San d'Oria"),
        186 => Some("Dynamis - Bastok"),
        187 => Some("Dynamis - Windurst"),
        188 => Some("Dynamis - Jeuno"),
        190 => Some("King Ranperre's Tomb"),
        191 => Some("Dangruf Wadi"),
        192 => Some("Inner Horutoto Ruins"),
        193 => Some("Ordelle's Caves"),
        194 => Some("Outer Horutoto Ruins"),
        195 => Some("The Eldieme Necropolis"),
        196 => Some("Gusgen Mines"),
        197 => Some("Crawlers' Nest"),
        198 => Some("Maze of Shakhrami"),
        200 => Some("Garlaige Citadel"),
        201 => Some("Cloister of Gales"),
        202 => Some("Cloister of Storms"),
        203 => Some("Cloister of Frost"),
        204 => Some("Fei'Yin"),
        205 => Some("Ifrit's Cauldron"),
        206 => Some("Qu'Bia Arena"),
        207 => Some("Cloister of Flames"),
        208 => Some("Quicksand Caves"),
        209 => Some("Cloister of Tremors"),
        210 => Some("GM Home"),
        211 => Some("Cloister of Tides"),
        212 => Some("Gustav Tunnel"),
        213 => Some("Labyrinth of Onzozo"),
        214 => Some("Residential Area"),
        215 => Some("Abyssea - Attohwa"),
        216 => Some("Abyssea - Misareaux"),
        217 => Some("Abyssea - Vunkerl"),
        218 => Some("Abyssea - Altepa"),
        220 => Some("Ship bound for Selbina"),
        221 => Some("Ship bound for Mhaura"),
        222 => Some("Provenance"),
        223 => Some("San d'Oria-Jeuno Airship"),
        224 => Some("Bastok-Jeuno Airship"),
        225 => Some("Windurst-Jeuno Airship"),
        226 => Some("Kazham-Jeuno Airship"),
        227 => Some("Ship bound for Selbina (pirates)"),
        228 => Some("Ship bound for Mhaura (pirates)"),
        230 => Some("Southern San d'Oria"),
        231 => Some("Northern San d'Oria"),
        232 => Some("Port San d'Oria"),
        233 => Some("Chateau d'Oraguille"),
        234 => Some("Bastok Mines"),
        235 => Some("Bastok Markets"),
        236 => Some("Port Bastok"),
        237 => Some("Metalworks"),
        238 => Some("Windurst Waters"),
        239 => Some("Windurst Walls"),
        240 => Some("Port Windurst"),
        241 => Some("Windurst Woods"),
        242 => Some("Heavens Tower"),
        243 => Some("Ru'Lude Gardens"),
        244 => Some("Upper Jeuno"),
        245 => Some("Lower Jeuno"),
        246 => Some("Port Jeuno"),
        247 => Some("Rabao"),
        248 => Some("Selbina"),
        249 => Some("Mhaura"),
        250 => Some("Kazham"),
        251 => Some("Hall of the Gods"),
        252 => Some("Norg"),
        253 => Some("Abyssea - Uleguerand"),
        254 => Some("Abyssea - Grauberg"),
        255 => Some("Abyssea - Empyreal Paradox"),
        256 => Some("Western Adoulin"),
        257 => Some("Eastern Adoulin"),
        258 => Some("Rala Waterways"),
        _ => None,
    }
}

} // verus!
