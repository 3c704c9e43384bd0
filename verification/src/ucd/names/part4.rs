//! Part 4 of the character names: groups 40 to 43 of the table.
use vstd::prelude::*;

use crate::ucd::Codepoint;

verus! {

pub open spec fn codepoint_table_800() -> Seq<Codepoint> {
    seq![
        Codepoint { codepoint: 0x1F430, name: "RABBIT FACE", aliases: &[] },
        Codepoint { codepoint: 0x1F431, name: "CAT FACE", aliases: &[] },
        Codepoint { codepoint: 0x1F432, name: "DRAGON FACE", aliases: &[] },
        Codepoint { codepoint: 0x1F433, name: "SPOUTING WHALE", aliases: &[] },
        Codepoint { codepoint: 0x1F434, name: "HORSE FACE", aliases: &[] },
        Codepoint { codepoint: 0x1F435, name: "MONKEY FACE", aliases: &[] },
        Codepoint { codepoint: 0x1F436, name: "DOG FACE", aliases: &[] },
        Codepoint { codepoint: 0x1F437, name: "PIG FACE", aliases: &[] },
        Codepoint { codepoint: 0x1F438, name: "FROG FACE", aliases: &[] },
        Codepoint { codepoint: 0x1F439, name: "HAMSTER FACE", aliases: &[] },
        Codepoint { codepoint: 0x1F43A, name: "WOLF FACE", aliases: &[] },
        Codepoint { codepoint: 0x1F43B, name: "BEAR FACE", aliases: &[] },
        Codepoint { codepoint: 0x1F43C, name: "PANDA FACE", aliases: &[] },
        Codepoint { codepoint: 0x1F43D, name: "PIG NOSE", aliases: &[] },
        Codepoint { codepoint: 0x1F43E, name: "PAW PRINTS", aliases: &[] },
        Codepoint { codepoint: 0x1F43F, name: "CHIPMUNK", aliases: &[] },
        Codepoint { codepoint: 0x1F440, name: "EYES", aliases: &[] },
        Codepoint { codepoint: 0x1F441, name: "EYE", aliases: &[] },
        Codepoint { codepoint: 0x1F442, name: "EAR", aliases: &[] },
        Codepoint { codepoint: 0x1F443, name: "NOSE", aliases: &[] },
        Codepoint { codepoint: 0x1F444, name: "MOUTH", aliases: &[] },
        Codepoint { codepoint: 0x1F445, name: "TONGUE", aliases: &[] },
        Codepoint { codepoint: 0x1F446, name: "WHITE UP POINTING BACKHAND INDEX", aliases: &[] },
        Codepoint { codepoint: 0x1F447, name: "WHITE DOWN POINTING BACKHAND INDEX", aliases: &[] },
        Codepoint { codepoint: 0x1F448, name: "WHITE LEFT POINTING BACKHAND INDEX", aliases: &[] },
        Codepoint { codepoint: 0x1F449, name: "WHITE RIGHT POINTING BACKHAND INDEX", aliases: &[] },
        Codepoint { codepoint: 0x1F44A, name: "FISTED HAND SIGN", aliases: &[] },
        Codepoint { codepoint: 0x1F44B, name: "WAVING HAND SIGN", aliases: &[] },
        Codepoint { codepoint: 0x1F44C, name: "OK HAND SIGN", aliases: &[] },
        Codepoint { codepoint: 0x1F44D, name: "THUMBS UP SIGN", aliases: &[] },
        Codepoint { codepoint: 0x1F44E, name: "THUMBS DOWN SIGN", aliases: &[] },
        Codepoint { codepoint: 0x1F44F, name: "CLAPPING HANDS SIGN", aliases: &[] },
        Codepoint { codepoint: 0x1F450, name: "OPEN HANDS SIGN", aliases: &[] },
        Codepoint { codepoint: 0x1F451, name: "CROWN", aliases: &[] },
        Codepoint { codepoint: 0x1F452, name: "WOMANS HAT", aliases: &[] },
        Codepoint { codepoint: 0x1F453, name: "EYEGLASSES", aliases: &[] },
        Codepoint { codepoint: 0x1F454, name: "NECKTIE", aliases: &[] },
        Codepoint { codepoint: 0x1F455, name: "T-SHIRT", aliases: &[] },
        Codepoint { codepoint: 0x1F456, name: "JEANS", aliases: &[] },
        Codepoint { codepoint: 0x1F457, name: "DRESS", aliases: &[] },
    ]
}

fn all_codepoints_800() -> (v: Vec<Codepoint>)
    ensures
        v@ == codepoint_table_800(),
{
    let v = vec![
        Codepoint { codepoint: 0x1F430, name: "RABBIT FACE", aliases: &[] },
        Codepoint { codepoint: 0x1F431, name: "CAT FACE", aliases: &[] },
        Codepoint { codepoint: 0x1F432, name: "DRAGON FACE", aliases: &[] },
        Codepoint { codepoint: 0x1F433, name: "SPOUTING WHALE", aliases: &[] },
        Codepoint { codepoint: 0x1F434, name: "HORSE FACE", aliases: &[] },
        Codepoint { codepoint: 0x1F435, name: "MONKEY FACE", aliases: &[] },
        Codepoint { codepoint: 0x1F436, name: "DOG FACE", aliases: &[] },
        Codepoint { codepoint: 0x1F437, name: "PIG FACE", aliases: &[] },
        Codepoint { codepoint: 0x1F438, name: "FROG FACE", aliases: &[] },
        Codepoint { codepoint: 0x1F439, name: "HAMSTER FACE", aliases: &[] },
        Codepoint { codepoint: 0x1F43A, name: "WOLF FACE", aliases: &[] },
        Codepoint { codepoint: 0x1F43B, name: "BEAR FACE", aliases: &[] },
        Codepoint { codepoint: 0x1F43C, name: "PANDA FACE", aliases: &[] },
        Codepoint { codepoint: 0x1F43D, name: "PIG NOSE", aliases: &[] },
        Codepoint { codepoint: 0x1F43E, name: "PAW PRINTS", aliases: &[] },
        Codepoint { codepoint: 0x1F43F, name: "CHIPMUNK", aliases: &[] },
        Codepoint { codepoint: 0x1F440, name: "EYES", aliases: &[] },
        Codepoint { codepoint: 0x1F441, name: "EYE", aliases: &[] },
        Codepoint { codepoint: 0x1F442, name: "EAR", aliases: &[] },
        Codepoint { codepoint: 0x1F443, name: "NOSE", aliases: &[] },
        Codepoint { codepoint: 0x1F444, name: "MOUTH", aliases: &[] },
        Codepoint { codepoint: 0x1F445, name: "TONGUE", aliases: &[] },
        Codepoint { codepoint: 0x1F446, name: "WHITE UP POINTING BACKHAND INDEX", aliases: &[] },
        Codepoint { codepoint: 0x1F447, name: "WHITE DOWN POINTING BACKHAND INDEX", aliases: &[] },
        Codepoint { codepoint: 0x1F448, name: "WHITE LEFT POINTING BACKHAND INDEX", aliases: &[] },
        Codepoint { codepoint: 0x1F449, name: "WHITE RIGHT POINTING BACKHAND INDEX", aliases: &[] },
        Codepoint { codepoint: 0x1F44A, name: "FISTED HAND SIGN", aliases: &[] },
        Codepoint { codepoint: 0x1F44B, name: "WAVING HAND SIGN", aliases: &[] },
        Codepoint { codepoint: 0x1F44C, name: "OK HAND SIGN", aliases: &[] },
        Codepoint { codepoint: 0x1F44D, name: "THUMBS UP SIGN", aliases: &[] },
        Codepoint { codepoint: 0x1F44E, name: "THUMBS DOWN SIGN", aliases: &[] },
        Codepoint { codepoint: 0x1F44F, name: "CLAPPING HANDS SIGN", aliases: &[] },
        Codepoint { codepoint: 0x1F450, name: "OPEN HANDS SIGN", aliases: &[] },
        Codepoint { codepoint: 0x1F451, name: "CROWN", aliases: &[] },
        Codepoint { codepoint: 0x1F452, name: "WOMANS HAT", aliases: &[] },
        Codepoint { codepoint: 0x1F453, name: "EYEGLASSES", aliases: &[] },
        Codepoint { codepoint: 0x1F454, name: "NECKTIE", aliases: &[] },
        Codepoint { codepoint: 0x1F455, name: "T-SHIRT", aliases: &[] },
        Codepoint { codepoint: 0x1F456, name: "JEANS", aliases: &[] },
        Codepoint { codepoint: 0x1F457, name: "DRESS", aliases: &[] },
    ];
    assert(v@ =~= codepoint_table_800());
    v
}

pub open spec fn codepoint_table_801() -> Seq<Codepoint> {
    seq![
        Codepoint { codepoint: 0x1F458, name: "KIMONO", aliases: &[] },
        Codepoint { codepoint: 0x1F459, name: "BIKINI", aliases: &[] },
        Codepoint { codepoint: 0x1F45A, name: "WOMANS CLOTHES", aliases: &[] },
        Codepoint { codepoint: 0x1F45B, name: "PURSE", aliases: &[] },
        Codepoint { codepoint: 0x1F45C, name: "HANDBAG", aliases: &[] },
        Codepoint { codepoint: 0x1F45D, name: "POUCH", aliases: &[] },
        Codepoint { codepoint: 0x1F45E, name: "MANS SHOE", aliases: &[] },
        Codepoint { codepoint: 0x1F45F, name: "ATHLETIC SHOE", aliases: &[] },
        Codepoint { codepoint: 0x1F460, name: "HIGH-HEELED SHOE", aliases: &[] },
        Codepoint { codepoint: 0x1F461, name: "WOMANS SANDAL", aliases: &[] },
        Codepoint { codepoint: 0x1F462, name: "WOMANS BOOTS", aliases: &[] },
        Codepoint { codepoint: 0x1F463, name: "FOOTPRINTS", aliases: &[] },
        Codepoint { codepoint: 0x1F464, name: "BUST IN SILHOUETTE", aliases: &[] },
        Codepoint { codepoint: 0x1F465, name: "BUSTS IN SILHOUETTE", aliases: &[] },
        Codepoint { codepoint: 0x1F466, name: "BOY", aliases: &[] },
        Codepoint { codepoint: 0x1F467, name: "GIRL", aliases: &[] },
        Codepoint { codepoint: 0x1F468, name: "MAN", aliases: &[] },
        Codepoint { codepoint: 0x1F469, name: "WOMAN", aliases: &[] },
        Codepoint { codepoint: 0x1F46A, name: "FAMILY", aliases: &[] },
        Codepoint { codepoint: 0x1F46B, name: "MAN AND WOMAN HOLDING HANDS", aliases: &[] },
        Codepoint { codepoint: 0x1F46C, name: "TWO MEN HOLDING HANDS", aliases: &[] },
        Codepoint { codepoint: 0x1F46D, name: "TWO WOMEN HOLDING HANDS", aliases: &[] },
        Codepoint { codepoint: 0x1F46E, name: "POLICE OFFICER", aliases: &[] },
        Codepoint { codepoint: 0x1F46F, name: "WOMAN WITH BUNNY EARS", aliases: &[] },
        Codepoint { codepoint: 0x1F470, name: "BRIDE WITH VEIL", aliases: &[] },
        Codepoint { codepoint: 0x1F471, name: "PERSON WITH BLOND HAIR", aliases: &[] },
        Codepoint { codepoint: 0x1F472, name: "MAN WITH GUA PI MAO", aliases: &[] },
        Codepoint { codepoint: 0x1F473, name: "MAN WITH TURBAN", aliases: &[] },
        Codepoint { codepoint: 0x1F474, name: "OLDER MAN", aliases: &[] },
        Codepoint { codepoint: 0x1F475, name: "OLDER WOMAN", aliases: &[] },
        Codepoint { codepoint: 0x1F476, name: "BABY", aliases: &[] },
        Codepoint { codepoint: 0x1F477, name: "CONSTRUCTION WORKER", aliases: &[] },
        Codepoint { codepoint: 0x1F478, name: "PRINCESS", aliases: &[] },
        Codepoint { codepoint: 0x1F479, name: "JAPANESE OGRE", aliases: &[] },
        Codepoint { codepoint: 0x1F47A, name: "JAPANESE GOBLIN", aliases: &[] },
        Codepoint { codepoint: 0x1F47B, name: "GHOST", aliases: &[] },
        Codepoint { codepoint: 0x1F47C, name: "BABY ANGEL", aliases: &[] },
        Codepoint { codepoint: 0x1F47D, name: "EXTRATERRESTRIAL ALIEN", aliases: &[] },
        Codepoint { codepoint: 0x1F47E, name: "ALIEN MONSTER", aliases: &[] },
        Codepoint { codepoint: 0x1F47F, name: "IMP", aliases: &[] },
    ]
}

fn all_codepoints_801() -> (v: Vec<Codepoint>)
    ensures
        v@ == codepoint_table_801(),
{
    let v = vec![
        Codepoint { codepoint: 0x1F458, name: "KIMONO", aliases: &[] },
        Codepoint { codepoint: 0x1F459, name: "BIKINI", aliases: &[] },
        Codepoint { codepoint: 0x1F45A, name: "WOMANS CLOTHES", aliases: &[] },
        Codepoint { codepoint: 0x1F45B, name: "PURSE", aliases: &[] },
        Codepoint { codepoint: 0x1F45C, name: "HANDBAG", aliases: &[] },
        Codepoint { codepoint: 0x1F45D, name: "POUCH", aliases: &[] },
        Codepoint { codepoint: 0x1F45E, name: "MANS SHOE", aliases: &[] },
        Codepoint { codepoint: 0x1F45F, name: "ATHLETIC SHOE", aliases: &[] },
        Codepoint { codepoint: 0x1F460, name: "HIGH-HEELED SHOE", aliases: &[] },
        Codepoint { codepoint: 0x1F461, name: "WOMANS SANDAL", aliases: &[] },
        Codepoint { codepoint: 0x1F462, name: "WOMANS BOOTS", aliases: &[] },
        Codepoint { codepoint: 0x1F463, name: "FOOTPRINTS", aliases: &[] },
        Codepoint { codepoint: 0x1F464, name: "BUST IN SILHOUETTE", aliases: &[] },
        Codepoint { codepoint: 0x1F465, name: "BUSTS IN SILHOUETTE", aliases: &[] },
        Codepoint { codepoint: 0x1F466, name: "BOY", aliases: &[] },
        Codepoint { codepoint: 0x1F467, name: "GIRL", aliases: &[] },
        Codepoint { codepoint: 0x1F468, name: "MAN", aliases: &[] },
        Codepoint { codepoint: 0x1F469, name: "WOMAN", aliases: &[] },
        Codepoint { codepoint: 0x1F46A, name: "FAMILY", aliases: &[] },
        Codepoint { codepoint: 0x1F46B, name: "MAN AND WOMAN HOLDING HANDS", aliases: &[] },
        Codepoint { codepoint: 0x1F46C, name: "TWO MEN HOLDING HANDS", aliases: &[] },
        Codepoint { codepoint: 0x1F46D, name: "TWO WOMEN HOLDING HANDS", aliases: &[] },
        Codepoint { codepoint: 0x1F46E, name: "POLICE OFFICER", aliases: &[] },
        Codepoint { codepoint: 0x1F46F, name: "WOMAN WITH BUNNY EARS", aliases: &[] },
        Codepoint { codepoint: 0x1F470, name: "BRIDE WITH VEIL", aliases: &[] },
        Codepoint { codepoint: 0x1F471, name: "PERSON WITH BLOND HAIR", aliases: &[] },
        Codepoint { codepoint: 0x1F472, name: "MAN WITH GUA PI MAO", aliases: &[] },
        Codepoint { codepoint: 0x1F473, name: "MAN WITH TURBAN", aliases: &[] },
        Codepoint { codepoint: 0x1F474, name: "OLDER MAN", aliases: &[] },
        Codepoint { codepoint: 0x1F475, name: "OLDER WOMAN", aliases: &[] },
        Codepoint { codepoint: 0x1F476, name: "BABY", aliases: &[] },
        Codepoint { codepoint: 0x1F477, name: "CONSTRUCTION WORKER", aliases: &[] },
        Codepoint { codepoint: 0x1F478, name: "PRINCESS", aliases: &[] },
        Codepoint { codepoint: 0x1F479, name: "JAPANESE OGRE", aliases: &[] },
        Codepoint { codepoint: 0x1F47A, name: "JAPANESE GOBLIN", aliases: &[] },
        Codepoint { codepoint: 0x1F47B, name: "GHOST", aliases: &[] },
        Codepoint { codepoint: 0x1F47C, name: "BABY ANGEL", aliases: &[] },
        Codepoint { codepoint: 0x1F47D, name: "EXTRATERRESTRIAL ALIEN", aliases: &[] },
        Codepoint { codepoint: 0x1F47E, name: "ALIEN MONSTER", aliases: &[] },
        Codepoint { codepoint: 0x1F47F, name: "IMP", aliases: &[] },
    ];
    assert(v@ =~= codepoint_table_801());
    v
}

pub open spec fn codepoint_table_802() -> Seq<Codepoint> {
    seq![
        Codepoint { codepoint: 0x1F480, name: "SKULL", aliases: &[] },
        Codepoint { codepoint: 0x1F481, name: "INFORMATION DESK PERSON", aliases: &[] },
        Codepoint { codepoint: 0x1F482, name: "GUARDSMAN", aliases: &[] },
        Codepoint { codepoint: 0x1F483, name: "DANCER", aliases: &[] },
        Codepoint { codepoint: 0x1F484, name: "LIPSTICK", aliases: &[] },
        Codepoint { codepoint: 0x1F485, name: "NAIL POLISH", aliases: &[] },
        Codepoint { codepoint: 0x1F486, name: "FACE MASSAGE", aliases: &[] },
        Codepoint { codepoint: 0x1F487, name: "HAIRCUT", aliases: &[] },
        Codepoint { codepoint: 0x1F488, name: "BARBER POLE", aliases: &[] },
        Codepoint { codepoint: 0x1F489, name: "SYRINGE", aliases: &[] },
        Codepoint { codepoint: 0x1F48A, name: "PILL", aliases: &[] },
        Codepoint { codepoint: 0x1F48B, name: "KISS MARK", aliases: &[] },
        Codepoint { codepoint: 0x1F48C, name: "LOVE LETTER", aliases: &[] },
        Codepoint { codepoint: 0x1F48D, name: "RING", aliases: &[] },
        Codepoint { codepoint: 0x1F48E, name: "GEM STONE", aliases: &[] },
        Codepoint { codepoint: 0x1F48F, name: "KISS", aliases: &[] },
        Codepoint { codepoint: 0x1F490, name: "BOUQUET", aliases: &[] },
        Codepoint { codepoint: 0x1F491, name: "COUPLE WITH HEART", aliases: &[] },
        Codepoint { codepoint: 0x1F492, name: "WEDDING", aliases: &[] },
        Codepoint { codepoint: 0x1F493, name: "BEATING HEART", aliases: &[] },
        Codepoint { codepoint: 0x1F494, name: "BROKEN HEART", aliases: &[] },
        Codepoint { codepoint: 0x1F495, name: "TWO HEARTS", aliases: &[] },
        Codepoint { codepoint: 0x1F496, name: "SPARKLING HEART", aliases: &[] },
        Codepoint { codepoint: 0x1F497, name: "GROWING HEART", aliases: &[] },
        Codepoint { codepoint: 0x1F498, name: "HEART WITH ARROW", aliases: &[] },
        Codepoint { codepoint: 0x1F499, name: "BLUE HEART", aliases: &[] },
        Codepoint { codepoint: 0x1F49A, name: "GREEN HEART", aliases: &[] },
        Codepoint { codepoint: 0x1F49B, name: "YELLOW HEART", aliases: &[] },
        Codepoint { codepoint: 0x1F49C, name: "PURPLE HEART", aliases: &[] },
        Codepoint { codepoint: 0x1F49D, name: "HEART WITH RIBBON", aliases: &[] },
        Codepoint { codepoint: 0x1F49E, name: "REVOLVING HEARTS", aliases: &[] },
        Codepoint { codepoint: 0x1F49F, name: "HEART DECORATION", aliases: &[] },
        Codepoint { codepoint: 0x1F4A0, name: "DIAMOND SHAPE WITH A DOT INSIDE", aliases: &[] },
        Codepoint { codepoint: 0x1F4A1, name: "ELECTRIC LIGHT BULB", aliases: &[] },
        Codepoint { codepoint: 0x1F4A2, name: "ANGER SYMBOL", aliases: &[] },
        Codepoint { codepoint: 0x1F4A3, name: "BOMB", aliases: &[] },
        Codepoint { codepoint: 0x1F4A4, name: "SLEEPING SYMBOL", aliases: &[] },
        Codepoint { codepoint: 0x1F4A5, name: "COLLISION SYMBOL", aliases: &[] },
        Codepoint { codepoint: 0x1F4A6, name: "SPLASHING SWEAT SYMBOL", aliases: &[] },
        Codepoint { codepoint: 0x1F4A7, name: "DROPLET", aliases: &[] },
    ]
}

fn all_codepoints_802() -> (v: Vec<Codepoint>)
    ensures
        v@ == codepoint_table_802(),
{
    let v = vec![
        Codepoint { codepoint: 0x1F480, name: "SKULL", aliases: &[] },
        Codepoint { codepoint: 0x1F481, name: "INFORMATION DESK PERSON", aliases: &[] },
        Codepoint { codepoint: 0x1F482, name: "GUARDSMAN", aliases: &[] },
        Codepoint { codepoint: 0x1F483, name: "DANCER", aliases: &[] },
        Codepoint { codepoint: 0x1F484, name: "LIPSTICK", aliases: &[] },
        Codepoint { codepoint: 0x1F485, name: "NAIL POLISH", aliases: &[] },
        Codepoint { codepoint: 0x1F486, name: "FACE MASSAGE", aliases: &[] },
        Codepoint { codepoint: 0x1F487, name: "HAIRCUT", aliases: &[] },
        Codepoint { codepoint: 0x1F488, name: "BARBER POLE", aliases: &[] },
        Codepoint { codepoint: 0x1F489, name: "SYRINGE", aliases: &[] },
        Codepoint { codepoint: 0x1F48A, name: "PILL", aliases: &[] },
        Codepoint { codepoint: 0x1F48B, name: "KISS MARK", aliases: &[] },
        Codepoint { codepoint: 0x1F48C, name: "LOVE LETTER", aliases: &[] },
        Codepoint { codepoint: 0x1F48D, name: "RING", aliases: &[] },
        Codepoint { codepoint: 0x1F48E, name: "GEM STONE", aliases: &[] },
        Codepoint { codepoint: 0x1F48F, name: "KISS", aliases: &[] },
        Codepoint { codepoint: 0x1F490, name: "BOUQUET", aliases: &[] },
        Codepoint { codepoint: 0x1F491, name: "COUPLE WITH HEART", aliases: &[] },
        Codepoint { codepoint: 0x1F492, name: "WEDDING", aliases: &[] },
        Codepoint { codepoint: 0x1F493, name: "BEATING HEART", aliases: &[] },
        Codepoint { codepoint: 0x1F494, name: "BROKEN HEART", aliases: &[] },
        Codepoint { codepoint: 0x1F495, name: "TWO HEARTS", aliases: &[] },
        Codepoint { codepoint: 0x1F496, name: "SPARKLING HEART", aliases: &[] },
        Codepoint { codepoint: 0x1F497, name: "GROWING HEART", aliases: &[] },
        Codepoint { codepoint: 0x1F498, name: "HEART WITH ARROW", aliases: &[] },
        Codepoint { codepoint: 0x1F499, name: "BLUE HEART", aliases: &[] },
        Codepoint { codepoint: 0x1F49A, name: "GREEN HEART", aliases: &[] },
        Codepoint { codepoint: 0x1F49B, name: "YELLOW HEART", aliases: &[] },
        Codepoint { codepoint: 0x1F49C, name: "PURPLE HEART", aliases: &[] },
        Codepoint { codepoint: 0x1F49D, name: "HEART WITH RIBBON", aliases: &[] },
        Codepoint { codepoint: 0x1F49E, name: "REVOLVING HEARTS", aliases: &[] },
        Codepoint { codepoint: 0x1F49F, name: "HEART DECORATION", aliases: &[] },
        Codepoint { codepoint: 0x1F4A0, name: "DIAMOND SHAPE WITH A DOT INSIDE", aliases: &[] },
        Codepoint { codepoint: 0x1F4A1, name: "ELECTRIC LIGHT BULB", aliases: &[] },
        Codepoint { codepoint: 0x1F4A2, name: "ANGER SYMBOL", aliases: &[] },
        Codepoint { codepoint: 0x1F4A3, name: "BOMB", aliases: &[] },
        Codepoint { codepoint: 0x1F4A4, name: "SLEEPING SYMBOL", aliases: &[] },
        Codepoint { codepoint: 0x1F4A5, name: "COLLISION SYMBOL", aliases: &[] },
        Codepoint { codepoint: 0x1F4A6, name: "SPLASHING SWEAT SYMBOL", aliases: &[] },
        Codepoint { codepoint: 0x1F4A7, name: "DROPLET", aliases: &[] },
    ];
    assert(v@ =~= codepoint_table_802());
    v
}

pub open spec fn codepoint_table_803() -> Seq<Codepoint> {
    seq![
        Codepoint { codepoint: 0x1F4A8, name: "DASH SYMBOL", aliases: &[] },
        Codepoint { codepoint: 0x1F4A9, name: "PILE OF POO", aliases: &[] },
        Codepoint { codepoint: 0x1F4AA, name: "FLEXED BICEPS", aliases: &[] },
        Codepoint { codepoint: 0x1F4AB, name: "DIZZY SYMBOL", aliases: &[] },
        Codepoint { codepoint: 0x1F4AC, name: "SPEECH BALLOON", aliases: &[] },
        Codepoint { codepoint: 0x1F4AD, name: "THOUGHT BALLOON", aliases: &[] },
        Codepoint { codepoint: 0x1F4AE, name: "WHITE FLOWER", aliases: &[] },
        Codepoint { codepoint: 0x1F4AF, name: "HUNDRED POINTS SYMBOL", aliases: &[] },
        Codepoint { codepoint: 0x1F4B0, name: "MONEY BAG", aliases: &[] },
        Codepoint { codepoint: 0x1F4B1, name: "CURRENCY EXCHANGE", aliases: &[] },
        Codepoint { codepoint: 0x1F4B2, name: "HEAVY DOLLAR SIGN", aliases: &[] },
        Codepoint { codepoint: 0x1F4B3, name: "CREDIT CARD", aliases: &[] },
        Codepoint { codepoint: 0x1F4B4, name: "BANKNOTE WITH YEN SIGN", aliases: &[] },
        Codepoint { codepoint: 0x1F4B5, name: "BANKNOTE WITH DOLLAR SIGN", aliases: &[] },
        Codepoint { codepoint: 0x1F4B6, name: "BANKNOTE WITH EURO SIGN", aliases: &[] },
        Codepoint { codepoint: 0x1F4B7, name: "BANKNOTE WITH POUND SIGN", aliases: &[] },
        Codepoint { codepoint: 0x1F4B8, name: "MONEY WITH WINGS", aliases: &[] },
        Codepoint { codepoint: 0x1F4B9, name: "CHART WITH UPWARDS TREND AND YEN SIGN", aliases: &[] },
        Codepoint { codepoint: 0x1F4BA, name: "SEAT", aliases: &[] },
        Codepoint { codepoint: 0x1F4BB, name: "PERSONAL COMPUTER", aliases: &[] },
        Codepoint { codepoint: 0x1F4BC, name: "BRIEFCASE", aliases: &[] },
        Codepoint { codepoint: 0x1F4BD, name: "MINIDISC", aliases: &[] },
        Codepoint { codepoint: 0x1F4BE, name: "FLOPPY DISK", aliases: &[] },
        Codepoint { codepoint: 0x1F4BF, name: "OPTICAL DISC", aliases: &[] },
        Codepoint { codepoint: 0x1F4C0, name: "DVD", aliases: &[] },
        Codepoint { codepoint: 0x1F4C1, name: "FILE FOLDER", aliases: &[] },
        Codepoint { codepoint: 0x1F4C2, name: "OPEN FILE FOLDER", aliases: &[] },
        Codepoint { codepoint: 0x1F4C3, name: "PAGE WITH CURL", aliases: &[] },
        Codepoint { codepoint: 0x1F4C4, name: "PAGE FACING UP", aliases: &[] },
        Codepoint { codepoint: 0x1F4C5, name: "CALENDAR", aliases: &[] },
        Codepoint { codepoint: 0x1F4C6, name: "TEAR-OFF CALENDAR", aliases: &[] },
        Codepoint { codepoint: 0x1F4C7, name: "CARD INDEX", aliases: &[] },
        Codepoint { codepoint: 0x1F4C8, name: "CHART WITH UPWARDS TREND", aliases: &[] },
        Codepoint { codepoint: 0x1F4C9, name: "CHART WITH DOWNWARDS TREND", aliases: &[] },
        Codepoint { codepoint: 0x1F4CA, name: "BAR CHART", aliases: &[] },
        Codepoint { codepoint: 0x1F4CB, name: "CLIPBOARD", aliases: &[] },
        Codepoint { codepoint: 0x1F4CC, name: "PUSHPIN", aliases: &[] },
        Codepoint { codepoint: 0x1F4CD, name: "ROUND PUSHPIN", aliases: &[] },
        Codepoint { codepoint: 0x1F4CE, name: "PAPERCLIP", aliases: &[] },
        Codepoint { codepoint: 0x1F4CF, name: "STRAIGHT RULER", aliases: &[] },
    ]
}

fn all_codepoints_803() -> (v: Vec<Codepoint>)
    ensures
        v@ == codepoint_table_803(),
{
    let v = vec![
        Codepoint { codepoint: 0x1F4A8, name: "DASH SYMBOL", aliases: &[] },
        Codepoint { codepoint: 0x1F4A9, name: "PILE OF POO", aliases: &[] },
        Codepoint { codepoint: 0x1F4AA, name: "FLEXED BICEPS", aliases: &[] },
        Codepoint { codepoint: 0x1F4AB, name: "DIZZY SYMBOL", aliases: &[] },
        Codepoint { codepoint: 0x1F4AC, name: "SPEECH BALLOON", aliases: &[] },
        Codepoint { codepoint: 0x1F4AD, name: "THOUGHT BALLOON", aliases: &[] },
        Codepoint { codepoint: 0x1F4AE, name: "WHITE FLOWER", aliases: &[] },
        Codepoint { codepoint: 0x1F4AF, name: "HUNDRED POINTS SYMBOL", aliases: &[] },
        Codepoint { codepoint: 0x1F4B0, name: "MONEY BAG", aliases: &[] },
        Codepoint { codepoint: 0x1F4B1, name: "CURRENCY EXCHANGE", aliases: &[] },
        Codepoint { codepoint: 0x1F4B2, name: "HEAVY DOLLAR SIGN", aliases: &[] },
        Codepoint { codepoint: 0x1F4B3, name: "CREDIT CARD", aliases: &[] },
        Codepoint { codepoint: 0x1F4B4, name: "BANKNOTE WITH YEN SIGN", aliases: &[] },
        Codepoint { codepoint: 0x1F4B5, name: "BANKNOTE WITH DOLLAR SIGN", aliases: &[] },
        Codepoint { codepoint: 0x1F4B6, name: "BANKNOTE WITH EURO SIGN", aliases: &[] },
        Codepoint { codepoint: 0x1F4B7, name: "BANKNOTE WITH POUND SIGN", aliases: &[] },
        Codepoint { codepoint: 0x1F4B8, name: "MONEY WITH WINGS", aliases: &[] },
        Codepoint { codepoint: 0x1F4B9, name: "CHART WITH UPWARDS TREND AND YEN SIGN", aliases: &[] },
        Codepoint { codepoint: 0x1F4BA, name: "SEAT", aliases: &[] },
        Codepoint { codepoint: 0x1F4BB, name: "PERSONAL COMPUTER", aliases: &[] },
        Codepoint { codepoint: 0x1F4BC, name: "BRIEFCASE", aliases: &[] },
        Codepoint { codepoint: 0x1F4BD, name: "MINIDISC", aliases: &[] },
        Codepoint { codepoint: 0x1F4BE, name: "FLOPPY DISK", aliases: &[] },
        Codepoint { codepoint: 0x1F4BF, name: "OPTICAL DISC", aliases: &[] },
        Codepoint { codepoint: 0x1F4C0, name: "DVD", aliases: &[] },
        Codepoint { codepoint: 0x1F4C1, name: "FILE FOLDER", aliases: &[] },
        Codepoint { codepoint: 0x1F4C2, name: "OPEN FILE FOLDER", aliases: &[] },
        Codepoint { codepoint: 0x1F4C3, name: "PAGE WITH CURL", aliases: &[] },
        Codepoint { codepoint: 0x1F4C4, name: "PAGE FACING UP", aliases: &[] },
        Codepoint { codepoint: 0x1F4C5, name: "CALENDAR", aliases: &[] },
        Codepoint { codepoint: 0x1F4C6, name: "TEAR-OFF CALENDAR", aliases: &[] },
        Codepoint { codepoint: 0x1F4C7, name: "CARD INDEX", aliases: &[] },
        Codepoint { codepoint: 0x1F4C8, name: "CHART WITH UPWARDS TREND", aliases: &[] },
        Codepoint { codepoint: 0x1F4C9, name: "CHART WITH DOWNWARDS TREND", aliases: &[] },
        Codepoint { codepoint: 0x1F4CA, name: "BAR CHART", aliases: &[] },
        Codepoint { codepoint: 0x1F4CB, name: "CLIPBOARD", aliases: &[] },
        Codepoint { codepoint: 0x1F4CC, name: "PUSHPIN", aliases: &[] },
        Codepoint { codepoint: 0x1F4CD, name: "ROUND PUSHPIN", aliases: &[] },
        Codepoint { codepoint: 0x1F4CE, name: "PAPERCLIP", aliases: &[] },
        Codepoint { codepoint: 0x1F4CF, name: "STRAIGHT RULER", aliases: &[] },
    ];
    assert(v@ =~= codepoint_table_803());
    v
}

pub open spec fn codepoint_table_804() -> Seq<Codepoint> {
    seq![
        Codepoint { codepoint: 0x1F4D0, name: "TRIANGULAR RULER", aliases: &[] },
        Codepoint { codepoint: 0x1F4D1, name: "BOOKMARK TABS", aliases: &[] },
        Codepoint { codepoint: 0x1F4D2, name: "LEDGER", aliases: &[] },
        Codepoint { codepoint: 0x1F4D3, name: "NOTEBOOK", aliases: &[] },
        Codepoint { codepoint: 0x1F4D4, name: "NOTEBOOK WITH DECORATIVE COVER", aliases: &[] },
        Codepoint { codepoint: 0x1F4D5, name: "CLOSED BOOK", aliases: &[] },
        Codepoint { codepoint: 0x1F4D6, name: "OPEN BOOK", aliases: &[] },
        Codepoint { codepoint: 0x1F4D7, name: "GREEN BOOK", aliases: &[] },
        Codepoint { codepoint: 0x1F4D8, name: "BLUE BOOK", aliases: &[] },
        Codepoint { codepoint: 0x1F4D9, name: "ORANGE BOOK", aliases: &[] },
        Codepoint { codepoint: 0x1F4DA, name: "BOOKS", aliases: &[] },
        Codepoint { codepoint: 0x1F4DB, name: "NAME BADGE", aliases: &[] },
        Codepoint { codepoint: 0x1F4DC, name: "SCROLL", aliases: &[] },
        Codepoint { codepoint: 0x1F4DD, name: "MEMO", aliases: &[] },
        Codepoint { codepoint: 0x1F4DE, name: "TELEPHONE RECEIVER", aliases: &[] },
        Codepoint { codepoint: 0x1F4DF, name: "PAGER", aliases: &[] },
        Codepoint { codepoint: 0x1F4E0, name: "FAX MACHINE", aliases: &[] },
        Codepoint { codepoint: 0x1F4E1, name: "SATELLITE ANTENNA", aliases: &[] },
        Codepoint { codepoint: 0x1F4E2, name: "PUBLIC ADDRESS LOUDSPEAKER", aliases: &[] },
        Codepoint { codepoint: 0x1F4E3, name: "CHEERING MEGAPHONE", aliases: &[] },
        Codepoint { codepoint: 0x1F4E4, name: "OUTBOX TRAY", aliases: &[] },
        Codepoint { codepoint: 0x1F4E5, name: "INBOX TRAY", aliases: &[] },
        Codepoint { codepoint: 0x1F4E6, name: "PACKAGE", aliases: &[] },
        Codepoint { codepoint: 0x1F4E7, name: "E-MAIL SYMBOL", aliases: &[] },
        Codepoint { codepoint: 0x1F4E8, name: "INCOMING ENVELOPE", aliases: &[] },
        Codepoint { codepoint: 0x1F4E9, name: "ENVELOPE WITH DOWNWARDS ARROW ABOVE", aliases: &[] },
        Codepoint { codepoint: 0x1F4EA, name: "CLOSED MAILBOX WITH LOWERED FLAG", aliases: &[] },
        Codepoint { codepoint: 0x1F4EB, name: "CLOSED MAILBOX WITH RAISED FLAG", aliases: &[] },
        Codepoint { codepoint: 0x1F4EC, name: "OPEN MAILBOX WITH RAISED FLAG", aliases: &[] },
        Codepoint { codepoint: 0x1F4ED, name: "OPEN MAILBOX WITH LOWERED FLAG", aliases: &[] },
        Codepoint { codepoint: 0x1F4EE, name: "POSTBOX", aliases: &[] },
        Codepoint { codepoint: 0x1F4EF, name: "POSTAL HORN", aliases: &[] },
        Codepoint { codepoint: 0x1F4F0, name: "NEWSPAPER", aliases: &[] },
        Codepoint { codepoint: 0x1F4F1, name: "MOBILE PHONE", aliases: &[] },
        Codepoint { codepoint: 0x1F4F2, name: "MOBILE PHONE WITH RIGHTWARDS ARROW AT LEFT", aliases: &[] },
        Codepoint { codepoint: 0x1F4F3, name: "VIBRATION MODE", aliases: &[] },
        Codepoint { codepoint: 0x1F4F4, name: "MOBILE PHONE OFF", aliases: &[] },
        Codepoint { codepoint: 0x1F4F5, name: "NO MOBILE PHONES", aliases: &[] },
        Codepoint { codepoint: 0x1F4F6, name: "ANTENNA WITH BARS", aliases: &[] },
        Codepoint { codepoint: 0x1F4F7, name: "CAMERA", aliases: &[] },
    ]
}

fn all_codepoints_804() -> (v: Vec<Codepoint>)
    ensures
        v@ == codepoint_table_804(),
{
    let v = vec![
        Codepoint { codepoint: 0x1F4D0, name: "TRIANGULAR RULER", aliases: &[] },
        Codepoint { codepoint: 0x1F4D1, name: "BOOKMARK TABS", aliases: &[] },
        Codepoint { codepoint: 0x1F4D2, name: "LEDGER", aliases: &[] },
        Codepoint { codepoint: 0x1F4D3, name: "NOTEBOOK", aliases: &[] },
        Codepoint { codepoint: 0x1F4D4, name: "NOTEBOOK WITH DECORATIVE COVER", aliases: &[] },
        Codepoint { codepoint: 0x1F4D5, name: "CLOSED BOOK", aliases: &[] },
        Codepoint { codepoint: 0x1F4D6, name: "OPEN BOOK", aliases: &[] },
        Codepoint { codepoint: 0x1F4D7, name: "GREEN BOOK", aliases: &[] },
        Codepoint { codepoint: 0x1F4D8, name: "BLUE BOOK", aliases: &[] },
        Codepoint { codepoint: 0x1F4D9, name: "ORANGE BOOK", aliases: &[] },
        Codepoint { codepoint: 0x1F4DA, name: "BOOKS", aliases: &[] },
        Codepoint { codepoint: 0x1F4DB, name: "NAME BADGE", aliases: &[] },
        Codepoint { codepoint: 0x1F4DC, name: "SCROLL", aliases: &[] },
        Codepoint { codepoint: 0x1F4DD, name: "MEMO", aliases: &[] },
        Codepoint { codepoint: 0x1F4DE, name: "TELEPHONE RECEIVER", aliases: &[] },
        Codepoint { codepoint: 0x1F4DF, name: "PAGER", aliases: &[] },
        Codepoint { codepoint: 0x1F4E0, name: "FAX MACHINE", aliases: &[] },
        Codepoint { codepoint: 0x1F4E1, name: "SATELLITE ANTENNA", aliases: &[] },
        Codepoint { codepoint: 0x1F4E2, name: "PUBLIC ADDRESS LOUDSPEAKER", aliases: &[] },
        Codepoint { codepoint: 0x1F4E3, name: "CHEERING MEGAPHONE", aliases: &[] },
        Codepoint { codepoint: 0x1F4E4, name: "OUTBOX TRAY", aliases: &[] },
        Codepoint { codepoint: 0x1F4E5, name: "INBOX TRAY", aliases: &[] },
        Codepoint { codepoint: 0x1F4E6, name: "PACKAGE", aliases: &[] },
        Codepoint { codepoint: 0x1F4E7, name: "E-MAIL SYMBOL", aliases: &[] },
        Codepoint { codepoint: 0x1F4E8, name: "INCOMING ENVELOPE", aliases: &[] },
        Codepoint { codepoint: 0x1F4E9, name: "ENVELOPE WITH DOWNWARDS ARROW ABOVE", aliases: &[] },
        Codepoint { codepoint: 0x1F4EA, name: "CLOSED MAILBOX WITH LOWERED FLAG", aliases: &[] },
        Codepoint { codepoint: 0x1F4EB, name: "CLOSED MAILBOX WITH RAISED FLAG", aliases: &[] },
        Codepoint { codepoint: 0x1F4EC, name: "OPEN MAILBOX WITH RAISED FLAG", aliases: &[] },
        Codepoint { codepoint: 0x1F4ED, name: "OPEN MAILBOX WITH LOWERED FLAG", aliases: &[] },
        Codepoint { codepoint: 0x1F4EE, name: "POSTBOX", aliases: &[] },
        Codepoint { codepoint: 0x1F4EF, name: "POSTAL HORN", aliases: &[] },
        Codepoint { codepoint: 0x1F4F0, name: "NEWSPAPER", aliases: &[] },
        Codepoint { codepoint: 0x1F4F1, name: "MOBILE PHONE", aliases: &[] },
        Codepoint { codepoint: 0x1F4F2, name: "MOBILE PHONE WITH RIGHTWARDS ARROW AT LEFT", aliases: &[] },
        Codepoint { codepoint: 0x1F4F3, name: "VIBRATION MODE", aliases: &[] },
        Codepoint { codepoint: 0x1F4F4, name: "MOBILE PHONE OFF", aliases: &[] },
        Codepoint { codepoint: 0x1F4F5, name: "NO MOBILE PHONES", aliases: &[] },
        Codepoint { codepoint: 0x1F4F6, name: "ANTENNA WITH BARS", aliases: &[] },
        Codepoint { codepoint: 0x1F4F7, name: "CAMERA", aliases: &[] },
    ];
    assert(v@ =~= codepoint_table_804());
    v
}

pub open spec fn codepoint_table_805() -> Seq<Codepoint> {
    seq![
        Codepoint { codepoint: 0x1F4F8, name: "CAMERA WITH FLASH", aliases: &[] },
        Codepoint { codepoint: 0x1F4F9, name: "VIDEO CAMERA", aliases: &[] },
        Codepoint { codepoint: 0x1F4FA, name: "TELEVISION", aliases: &[] },
        Codepoint { codepoint: 0x1F4FB, name: "RADIO", aliases: &[] },
        Codepoint { codepoint: 0x1F4FC, name: "VIDEOCASSETTE", aliases: &[] },
        Codepoint { codepoint: 0x1F4FD, name: "FILM PROJECTOR", aliases: &[] },
        Codepoint { codepoint: 0x1F4FE, name: "PORTABLE STEREO", aliases: &[] },
        Codepoint { codepoint: 0x1F4FF, name: "PRAYER BEADS", aliases: &[] },
        Codepoint { codepoint: 0x1F500, name: "TWISTED RIGHTWARDS ARROWS", aliases: &[] },
        Codepoint { codepoint: 0x1F501, name: "CLOCKWISE RIGHTWARDS AND LEFTWARDS OPEN CIRCLE ARROWS", aliases: &[] },
        Codepoint { codepoint: 0x1F502, name: "CLOCKWISE RIGHTWARDS AND LEFTWARDS OPEN CIRCLE ARROWS WITH CIRCLED ONE OVERLAY", aliases: &[] },
        Codepoint { codepoint: 0x1F503, name: "CLOCKWISE DOWNWARDS AND UPWARDS OPEN CIRCLE ARROWS", aliases: &[] },
        Codepoint { codepoint: 0x1F504, name: "ANTICLOCKWISE DOWNWARDS AND UPWARDS OPEN CIRCLE ARROWS", aliases: &[] },
        Codepoint { codepoint: 0x1F505, name: "LOW BRIGHTNESS SYMBOL", aliases: &[] },
        Codepoint { codepoint: 0x1F506, name: "HIGH BRIGHTNESS SYMBOL", aliases: &[] },
        Codepoint { codepoint: 0x1F507, name: "SPEAKER WITH CANCELLATION STROKE", aliases: &[] },
        Codepoint { codepoint: 0x1F508, name: "SPEAKER", aliases: &[] },
        Codepoint { codepoint: 0x1F509, name: "SPEAKER WITH ONE SOUND WAVE", aliases: &[] },
        Codepoint { codepoint: 0x1F50A, name: "SPEAKER WITH THREE SOUND WAVES", aliases: &[] },
        Codepoint { codepoint: 0x1F50B, name: "BATTERY", aliases: &[] },
        Codepoint { codepoint: 0x1F50C, name: "ELECTRIC PLUG", aliases: &[] },
        Codepoint { codepoint: 0x1F50D, name: "LEFT-POINTING MAGNIFYING GLASS", aliases: &[] },
        Codepoint { codepoint: 0x1F50E, name: "RIGHT-POINTING MAGNIFYING GLASS", aliases: &[] },
        Codepoint { codepoint: 0x1F50F, name: "LOCK WITH INK PEN", aliases: &[] },
        Codepoint { codepoint: 0x1F510, name: "CLOSED LOCK WITH KEY", aliases: &[] },
        Codepoint { codepoint: 0x1F511, name: "KEY", aliases: &[] },
        Codepoint { codepoint: 0x1F512, name: "LOCK", aliases: &[] },
        Codepoint { codepoint: 0x1F513, name: "OPEN LOCK", aliases: &[] },
        Codepoint { codepoint: 0x1F514, name: "BELL", aliases: &[] },
        Codepoint { codepoint: 0x1F515, name: "BELL WITH CANCELLATION STROKE", aliases: &[] },
        Codepoint { codepoint: 0x1F516, name: "BOOKMARK", aliases: &[] },
        Codepoint { codepoint: 0x1F517, name: "LINK SYMBOL", aliases: &[] },
        Codepoint { codepoint: 0x1F518, name: "RADIO BUTTON", aliases: &[] },
        Codepoint { codepoint: 0x1F519, name: "BACK WITH LEFTWARDS ARROW ABOVE", aliases: &[] },
        Codepoint { codepoint: 0x1F51A, name: "END WITH LEFTWARDS ARROW ABOVE", aliases: &[] },
        Codepoint { codepoint: 0x1F51B, name: "ON WITH EXCLAMATION MARK WITH LEFT RIGHT ARROW ABOVE", aliases: &[] },
        Codepoint { codepoint: 0x1F51C, name: "SOON WITH RIGHTWARDS ARROW ABOVE", aliases: &[] },
        Codepoint { codepoint: 0x1F51D, name: "TOP WITH UPWARDS ARROW ABOVE", aliases: &[] },
        Codepoint { codepoint: 0x1F51E, name: "NO ONE UNDER EIGHTEEN SYMBOL", aliases: &[] },
        Codepoint { codepoint: 0x1F51F, name: "KEYCAP TEN", aliases: &[] },
    ]
}

fn all_codepoints_805() -> (v: Vec<Codepoint>)
    ensures
        v@ == codepoint_table_805(),
{
    let v = vec![
        Codepoint { codepoint: 0x1F4F8, name: "CAMERA WITH FLASH", aliases: &[] },
        Codepoint { codepoint: 0x1F4F9, name: "VIDEO CAMERA", aliases: &[] },
        Codepoint { codepoint: 0x1F4FA, name: "TELEVISION", aliases: &[] },
        Codepoint { codepoint: 0x1F4FB, name: "RADIO", aliases: &[] },
        Codepoint { codepoint: 0x1F4FC, name: "VIDEOCASSETTE", aliases: &[] },
        Codepoint { codepoint: 0x1F4FD, name: "FILM PROJECTOR", aliases: &[] },
        Codepoint { codepoint: 0x1F4FE, name: "PORTABLE STEREO", aliases: &[] },
        Codepoint { codepoint: 0x1F4FF, name: "PRAYER BEADS", aliases: &[] },
        Codepoint { codepoint: 0x1F500, name: "TWISTED RIGHTWARDS ARROWS", aliases: &[] },
        Codepoint { codepoint: 0x1F501, name: "CLOCKWISE RIGHTWARDS AND LEFTWARDS OPEN CIRCLE ARROWS", aliases: &[] },
        Codepoint { codepoint: 0x1F502, name: "CLOCKWISE RIGHTWARDS AND LEFTWARDS OPEN CIRCLE ARROWS WITH CIRCLED ONE OVERLAY", aliases: &[] },
        Codepoint { codepoint: 0x1F503, name: "CLOCKWISE DOWNWARDS AND UPWARDS OPEN CIRCLE ARROWS", aliases: &[] },
        Codepoint { codepoint: 0x1F504, name: "ANTICLOCKWISE DOWNWARDS AND UPWARDS OPEN CIRCLE ARROWS", aliases: &[] },
        Codepoint { codepoint: 0x1F505, name: "LOW BRIGHTNESS SYMBOL", aliases: &[] },
        Codepoint { codepoint: 0x1F506, name: "HIGH BRIGHTNESS SYMBOL", aliases: &[] },
        Codepoint { codepoint: 0x1F507, name: "SPEAKER WITH CANCELLATION STROKE", aliases: &[] },
        Codepoint { codepoint: 0x1F508, name: "SPEAKER", aliases: &[] },
        Codepoint { codepoint: 0x1F509, name: "SPEAKER WITH ONE SOUND WAVE", aliases: &[] },
        Codepoint { codepoint: 0x1F50A, name: "SPEAKER WITH THREE SOUND WAVES", aliases: &[] },
        Codepoint { codepoint: 0x1F50B, name: "BATTERY", aliases: &[] },
        Codepoint { codepoint: 0x1F50C, name: "ELECTRIC PLUG", aliases: &[] },
        Codepoint { codepoint: 0x1F50D, name: "LEFT-POINTING MAGNIFYING GLASS", aliases: &[] },
        Codepoint { codepoint: 0x1F50E, name: "RIGHT-POINTING MAGNIFYING GLASS", aliases: &[] },
        Codepoint { codepoint: 0x1F50F, name: "LOCK WITH INK PEN", aliases: &[] },
        Codepoint { codepoint: 0x1F510, name: "CLOSED LOCK WITH KEY", aliases: &[] },
        Codepoint { codepoint: 0x1F511, name: "KEY", aliases: &[] },
        Codepoint { codepoint: 0x1F512, name: "LOCK", aliases: &[] },
        Codepoint { codepoint: 0x1F513, name: "OPEN LOCK", aliases: &[] },
        Codepoint { codepoint: 0x1F514, name: "BELL", aliases: &[] },
        Codepoint { codepoint: 0x1F515, name: "BELL WITH CANCELLATION STROKE", aliases: &[] },
        Codepoint { codepoint: 0x1F516, name: "BOOKMARK", aliases: &[] },
        Codepoint { codepoint: 0x1F517, name: "LINK SYMBOL", aliases: &[] },
        Codepoint { codepoint: 0x1F518, name: "RADIO BUTTON", aliases: &[] },
        Codepoint { codepoint: 0x1F519, name: "BACK WITH LEFTWARDS ARROW ABOVE", aliases: &[] },
        Codepoint { codepoint: 0x1F51A, name: "END WITH LEFTWARDS ARROW ABOVE", aliases: &[] },
        Codepoint { codepoint: 0x1F51B, name: "ON WITH EXCLAMATION MARK WITH LEFT RIGHT ARROW ABOVE", aliases: &[] },
        Codepoint { codepoint: 0x1F51C, name: "SOON WITH RIGHTWARDS ARROW ABOVE", aliases: &[] },
        Codepoint { codepoint: 0x1F51D, name: "TOP WITH UPWARDS ARROW ABOVE", aliases: &[] },
        Codepoint { codepoint: 0x1F51E, name: "NO ONE UNDER EIGHTEEN SYMBOL", aliases: &[] },
        Codepoint { codepoint: 0x1F51F, name: "KEYCAP TEN", aliases: &[] },
    ];
    assert(v@ =~= codepoint_table_805());
    v
}

pub open spec fn codepoint_table_806() -> Seq<Codepoint> {
    seq![
        Codepoint { codepoint: 0x1F520, name: "INPUT SYMBOL FOR LATIN CAPITAL LETTERS", aliases: &[] },
        Codepoint { codepoint: 0x1F521, name: "INPUT SYMBOL FOR LATIN SMALL LETTERS", aliases: &[] },
        Codepoint { codepoint: 0x1F522, name: "INPUT SYMBOL FOR NUMBERS", aliases: &[] },
        Codepoint { codepoint: 0x1F523, name: "INPUT SYMBOL FOR SYMBOLS", aliases: &[] },
        Codepoint { codepoint: 0x1F524, name: "INPUT SYMBOL FOR LATIN LETTERS", aliases: &[] },
        Codepoint { codepoint: 0x1F525, name: "FIRE", aliases: &[] },
        Codepoint { codepoint: 0x1F526, name: "ELECTRIC TORCH", aliases: &[] },
        Codepoint { codepoint: 0x1F527, name: "WRENCH", aliases: &[] },
        Codepoint { codepoint: 0x1F528, name: "HAMMER", aliases: &[] },
        Codepoint { codepoint: 0x1F529, name: "NUT AND BOLT", aliases: &[] },
        Codepoint { codepoint: 0x1F52A, name: "HOCHO", aliases: &[] },
        Codepoint { codepoint: 0x1F52B, name: "PISTOL", aliases: &[] },
        Codepoint { codepoint: 0x1F52C, name: "MICROSCOPE", aliases: &[] },
        Codepoint { codepoint: 0x1F52D, name: "TELESCOPE", aliases: &[] },
        Codepoint { codepoint: 0x1F52E, name: "CRYSTAL BALL", aliases: &[] },
        Codepoint { codepoint: 0x1F52F, name: "SIX POINTED STAR WITH MIDDLE DOT", aliases: &[] },
        Codepoint { codepoint: 0x1F530, name: "JAPANESE SYMBOL FOR BEGINNER", aliases: &[] },
        Codepoint { codepoint: 0x1F531, name: "TRIDENT EMBLEM", aliases: &[] },
        Codepoint { codepoint: 0x1F532, name: "BLACK SQUARE BUTTON", aliases: &[] },
        Codepoint { codepoint: 0x1F533, name: "WHITE SQUARE BUTTON", aliases: &[] },
        Codepoint { codepoint: 0x1F534, name: "LARGE RED CIRCLE", aliases: &[] },
        Codepoint { codepoint: 0x1F535, name: "LARGE BLUE CIRCLE", aliases: &[] },
        Codepoint { codepoint: 0x1F536, name: "LARGE ORANGE DIAMOND", aliases: &[] },
        Codepoint { codepoint: 0x1F537, name: "LARGE BLUE DIAMOND", aliases: &[] },
        Codepoint { codepoint: 0x1F538, name: "SMALL ORANGE DIAMOND", aliases: &[] },
        Codepoint { codepoint: 0x1F539, name: "SMALL BLUE DIAMOND", aliases: &[] },
        Codepoint { codepoint: 0x1F53A, name: "UP-POINTING RED TRIANGLE", aliases: &[] },
        Codepoint { codepoint: 0x1F53B, name: "DOWN-POINTING RED TRIANGLE", aliases: &[] },
        Codepoint { codepoint: 0x1F53C, name: "UP-POINTING SMALL RED TRIANGLE", aliases: &[] },
        Codepoint { codepoint: 0x1F53D, name: "DOWN-POINTING SMALL RED TRIANGLE", aliases: &[] },
        Codepoint { codepoint: 0x1F53E, name: "LOWER RIGHT SHADOWED WHITE CIRCLE", aliases: &[] },
        Codepoint { codepoint: 0x1F53F, name: "UPPER RIGHT SHADOWED WHITE CIRCLE", aliases: &[] },
        Codepoint { codepoint: 0x1F540, name: "CIRCLED CROSS POMMEE", aliases: &[] },
        Codepoint { codepoint: 0x1F541, name: "CROSS POMMEE WITH HALF-CIRCLE BELOW", aliases: &[] },
        Codepoint { codepoint: 0x1F542, name: "CROSS POMMEE", aliases: &[] },
        Codepoint { codepoint: 0x1F543, name: "NOTCHED LEFT SEMICIRCLE WITH THREE DOTS", aliases: &[] },
        Codepoint { codepoint: 0x1F544, name: "NOTCHED RIGHT SEMICIRCLE WITH THREE DOTS", aliases: &[] },
        Codepoint { codepoint: 0x1F545, name: "SYMBOL FOR MARKS CHAPTER", aliases: &[] },
        Codepoint { codepoint: 0x1F546, name: "WHITE LATIN CROSS", aliases: &[] },
        Codepoint { codepoint: 0x1F547, name: "HEAVY LATIN CROSS", aliases: &[] },
    ]
}

fn all_codepoints_806() -> (v: Vec<Codepoint>)
    ensures
        v@ == codepoint_table_806(),
{
    let v = vec![
        Codepoint { codepoint: 0x1F520, name: "INPUT SYMBOL FOR LATIN CAPITAL LETTERS", aliases: &[] },
        Codepoint { codepoint: 0x1F521, name: "INPUT SYMBOL FOR LATIN SMALL LETTERS", aliases: &[] },
        Codepoint { codepoint: 0x1F522, name: "INPUT SYMBOL FOR NUMBERS", aliases: &[] },
        Codepoint { codepoint: 0x1F523, name: "INPUT SYMBOL FOR SYMBOLS", aliases: &[] },
        Codepoint { codepoint: 0x1F524, name: "INPUT SYMBOL FOR LATIN LETTERS", aliases: &[] },
        Codepoint { codepoint: 0x1F525, name: "FIRE", aliases: &[] },
        Codepoint { codepoint: 0x1F526, name: "ELECTRIC TORCH", aliases: &[] },
        Codepoint { codepoint: 0x1F527, name: "WRENCH", aliases: &[] },
        Codepoint { codepoint: 0x1F528, name: "HAMMER", aliases: &[] },
        Codepoint { codepoint: 0x1F529, name: "NUT AND BOLT", aliases: &[] },
        Codepoint { codepoint: 0x1F52A, name: "HOCHO", aliases: &[] },
        Codepoint { codepoint: 0x1F52B, name: "PISTOL", aliases: &[] },
        Codepoint { codepoint: 0x1F52C, name: "MICROSCOPE", aliases: &[] },
        Codepoint { codepoint: 0x1F52D, name: "TELESCOPE", aliases: &[] },
        Codepoint { codepoint: 0x1F52E, name: "CRYSTAL BALL", aliases: &[] },
        Codepoint { codepoint: 0x1F52F, name: "SIX POINTED STAR WITH MIDDLE DOT", aliases: &[] },
        Codepoint { codepoint: 0x1F530, name: "JAPANESE SYMBOL FOR BEGINNER", aliases: &[] },
        Codepoint { codepoint: 0x1F531, name: "TRIDENT EMBLEM", aliases: &[] },
        Codepoint { codepoint: 0x1F532, name: "BLACK SQUARE BUTTON", aliases: &[] },
        Codepoint { codepoint: 0x1F533, name: "WHITE SQUARE BUTTON", aliases: &[] },
        Codepoint { codepoint: 0x1F534, name: "LARGE RED CIRCLE", aliases: &[] },
        Codepoint { codepoint: 0x1F535, name: "LARGE BLUE CIRCLE", aliases: &[] },
        Codepoint { codepoint: 0x1F536, name: "LARGE ORANGE DIAMOND", aliases: &[] },
        Codepoint { codepoint: 0x1F537, name: "LARGE BLUE DIAMOND", aliases: &[] },
        Codepoint { codepoint: 0x1F538, name: "SMALL ORANGE DIAMOND", aliases: &[] },
        Codepoint { codepoint: 0x1F539, name: "SMALL BLUE DIAMOND", aliases: &[] },
        Codepoint { codepoint: 0x1F53A, name: "UP-POINTING RED TRIANGLE", aliases: &[] },
        Codepoint { codepoint: 0x1F53B, name: "DOWN-POINTING RED TRIANGLE", aliases: &[] },
        Codepoint { codepoint: 0x1F53C, name: "UP-POINTING SMALL RED TRIANGLE", aliases: &[] },
        Codepoint { codepoint: 0x1F53D, name: "DOWN-POINTING SMALL RED TRIANGLE", aliases: &[] },
        Codepoint { codepoint: 0x1F53E, name: "LOWER RIGHT SHADOWED WHITE CIRCLE", aliases: &[] },
        Codepoint { codepoint: 0x1F53F, name: "UPPER RIGHT SHADOWED WHITE CIRCLE", aliases: &[] },
        Codepoint { codepoint: 0x1F540, name: "CIRCLED CROSS POMMEE", aliases: &[] },
        Codepoint { codepoint: 0x1F541, name: "CROSS POMMEE WITH HALF-CIRCLE BELOW", aliases: &[] },
        Codepoint { codepoint: 0x1F542, name: "CROSS POMMEE", aliases: &[] },
        Codepoint { codepoint: 0x1F543, name: "NOTCHED LEFT SEMICIRCLE WITH THREE DOTS", aliases: &[] },
        Codepoint { codepoint: 0x1F544, name: "NOTCHED RIGHT SEMICIRCLE WITH THREE DOTS", aliases: &[] },
        Codepoint { codepoint: 0x1F545, name: "SYMBOL FOR MARKS CHAPTER", aliases: &[] },
        Codepoint { codepoint: 0x1F546, name: "WHITE LATIN CROSS", aliases: &[] },
        Codepoint { codepoint: 0x1F547, name: "HEAVY LATIN CROSS", aliases: &[] },
    ];
    assert(v@ =~= codepoint_table_806());
    v
}

pub open spec fn codepoint_table_807() -> Seq<Codepoint> {
    seq![
        Codepoint { codepoint: 0x1F548, name: "CELTIC CROSS", aliases: &[] },
        Codepoint { codepoint: 0x1F549, name: "OM SYMBOL", aliases: &[] },
        Codepoint { codepoint: 0x1F54A, name: "DOVE OF PEACE", aliases: &[] },
        Codepoint { codepoint: 0x1F54B, name: "KAABA", aliases: &[] },
        Codepoint { codepoint: 0x1F54C, name: "MOSQUE", aliases: &[] },
        Codepoint { codepoint: 0x1F54D, name: "SYNAGOGUE", aliases: &[] },
        Codepoint { codepoint: 0x1F54E, name: "MENORAH WITH NINE BRANCHES", aliases: &[] },
        Codepoint { codepoint: 0x1F54F, name: "BOWL OF HYGIEIA", aliases: &[] },
        Codepoint { codepoint: 0x1F550, name: "CLOCK FACE ONE OCLOCK", aliases: &[] },
        Codepoint { codepoint: 0x1F551, name: "CLOCK FACE TWO OCLOCK", aliases: &[] },
        Codepoint { codepoint: 0x1F552, name: "CLOCK FACE THREE OCLOCK", aliases: &[] },
        Codepoint { codepoint: 0x1F553, name: "CLOCK FACE FOUR OCLOCK", aliases: &[] },
        Codepoint { codepoint: 0x1F554, name: "CLOCK FACE FIVE OCLOCK", aliases: &[] },
        Codepoint { codepoint: 0x1F555, name: "CLOCK FACE SIX OCLOCK", aliases: &[] },
        Codepoint { codepoint: 0x1F556, name: "CLOCK FACE SEVEN OCLOCK", aliases: &[] },
        Codepoint { codepoint: 0x1F557, name: "CLOCK FACE EIGHT OCLOCK", aliases: &[] },
        Codepoint { codepoint: 0x1F558, name: "CLOCK FACE NINE OCLOCK", aliases: &[] },
        Codepoint { codepoint: 0x1F559, name: "CLOCK FACE TEN OCLOCK", aliases: &[] },
        Codepoint { codepoint: 0x1F55A, name: "CLOCK FACE ELEVEN OCLOCK", aliases: &[] },
        Codepoint { codepoint: 0x1F55B, name: "CLOCK FACE TWELVE OCLOCK", aliases: &[] },
        Codepoint { codepoint: 0x1F55C, name: "CLOCK FACE ONE-THIRTY", aliases: &[] },
        Codepoint { codepoint: 0x1F55D, name: "CLOCK FACE TWO-THIRTY", aliases: &[] },
        Codepoint { codepoint: 0x1F55E, name: "CLOCK FACE THREE-THIRTY", aliases: &[] },
        Codepoint { codepoint: 0x1F55F, name: "CLOCK FACE FOUR-THIRTY", aliases: &[] },
        Codepoint { codepoint: 0x1F560, name: "CLOCK FACE FIVE-THIRTY", aliases: &[] },
        Codepoint { codepoint: 0x1F561, name: "CLOCK FACE SIX-THIRTY", aliases: &[] },
        Codepoint { codepoint: 0x1F562, name: "CLOCK FACE SEVEN-THIRTY", aliases: &[] },
        Codepoint { codepoint: 0x1F563, name: "CLOCK FACE EIGHT-THIRTY", aliases: &[] },
        Codepoint { codepoint: 0x1F564, name: "CLOCK FACE NINE-THIRTY", aliases: &[] },
        Codepoint { codepoint: 0x1F565, name: "CLOCK FACE TEN-THIRTY", aliases: &[] },
        Codepoint { codepoint: 0x1F566, name: "CLOCK FACE ELEVEN-THIRTY", aliases: &[] },
        Codepoint { codepoint: 0x1F567, name: "CLOCK FACE TWELVE-THIRTY", aliases: &[] },
        Codepoint { codepoint: 0x1F568, name: "RIGHT SPEAKER", aliases: &[] },
        Codepoint { codepoint: 0x1F569, name: "RIGHT SPEAKER WITH ONE SOUND WAVE", aliases: &[] },
        Codepoint { codepoint: 0x1F56A, name: "RIGHT SPEAKER WITH THREE SOUND WAVES", aliases: &[] },
        Codepoint { codepoint: 0x1F56B, name: "BULLHORN", aliases: &[] },
        Codepoint { codepoint: 0x1F56C, name: "BULLHORN WITH SOUND WAVES", aliases: &[] },
        Codepoint { codepoint: 0x1F56D, name: "RINGING BELL", aliases: &[] },
        Codepoint { codepoint: 0x1F56E, name: "BOOK", aliases: &[] },
        Codepoint { codepoint: 0x1F56F, name: "CANDLE", aliases: &[] },
    ]
}

fn all_codepoints_807() -> (v: Vec<Codepoint>)
    ensures
        v@ == codepoint_table_807(),
{
    let v = vec![
        Codepoint { codepoint: 0x1F548, name: "CELTIC CROSS", aliases: &[] },
        Codepoint { codepoint: 0x1F549, name: "OM SYMBOL", aliases: &[] },
        Codepoint { codepoint: 0x1F54A, name: "DOVE OF PEACE", aliases: &[] },
        Codepoint { codepoint: 0x1F54B, name: "KAABA", aliases: &[] },
        Codepoint { codepoint: 0x1F54C, name: "MOSQUE", aliases: &[] },
        Codepoint { codepoint: 0x1F54D, name: "SYNAGOGUE", aliases: &[] },
        Codepoint { codepoint: 0x1F54E, name: "MENORAH WITH NINE BRANCHES", aliases: &[] },
        Codepoint { codepoint: 0x1F54F, name: "BOWL OF HYGIEIA", aliases: &[] },
        Codepoint { codepoint: 0x1F550, name: "CLOCK FACE ONE OCLOCK", aliases: &[] },
        Codepoint { codepoint: 0x1F551, name: "CLOCK FACE TWO OCLOCK", aliases: &[] },
        Codepoint { codepoint: 0x1F552, name: "CLOCK FACE THREE OCLOCK", aliases: &[] },
        Codepoint { codepoint: 0x1F553, name: "CLOCK FACE FOUR OCLOCK", aliases: &[] },
        Codepoint { codepoint: 0x1F554, name: "CLOCK FACE FIVE OCLOCK", aliases: &[] },
        Codepoint { codepoint: 0x1F555, name: "CLOCK FACE SIX OCLOCK", aliases: &[] },
        Codepoint { codepoint: 0x1F556, name: "CLOCK FACE SEVEN OCLOCK", aliases: &[] },
        Codepoint { codepoint: 0x1F557, name: "CLOCK FACE EIGHT OCLOCK", aliases: &[] },
        Codepoint { codepoint: 0x1F558, name: "CLOCK FACE NINE OCLOCK", aliases: &[] },
        Codepoint { codepoint: 0x1F559, name: "CLOCK FACE TEN OCLOCK", aliases: &[] },
        Codepoint { codepoint: 0x1F55A, name: "CLOCK FACE ELEVEN OCLOCK", aliases: &[] },
        Codepoint { codepoint: 0x1F55B, name: "CLOCK FACE TWELVE OCLOCK", aliases: &[] },
        Codepoint { codepoint: 0x1F55C, name: "CLOCK FACE ONE-THIRTY", aliases: &[] },
        Codepoint { codepoint: 0x1F55D, name: "CLOCK FACE TWO-THIRTY", aliases: &[] },
        Codepoint { codepoint: 0x1F55E, name: "CLOCK FACE THREE-THIRTY", aliases: &[] },
        Codepoint { codepoint: 0x1F55F, name: "CLOCK FACE FOUR-THIRTY", aliases: &[] },
        Codepoint { codepoint: 0x1F560, name: "CLOCK FACE FIVE-THIRTY", aliases: &[] },
        Codepoint { codepoint: 0x1F561, name: "CLOCK FACE SIX-THIRTY", aliases: &[] },
        Codepoint { codepoint: 0x1F562, name: "CLOCK FACE SEVEN-THIRTY", aliases: &[] },
        Codepoint { codepoint: 0x1F563, name: "CLOCK FACE EIGHT-THIRTY", aliases: &[] },
        Codepoint { codepoint: 0x1F564, name: "CLOCK FACE NINE-THIRTY", aliases: &[] },
        Codepoint { codepoint: 0x1F565, name: "CLOCK FACE TEN-THIRTY", aliases: &[] },
        Codepoint { codepoint: 0x1F566, name: "CLOCK FACE ELEVEN-THIRTY", aliases: &[] },
        Codepoint { codepoint: 0x1F567, name: "CLOCK FACE TWELVE-THIRTY", aliases: &[] },
        Codepoint { codepoint: 0x1F568, name: "RIGHT SPEAKER", aliases: &[] },
        Codepoint { codepoint: 0x1F569, name: "RIGHT SPEAKER WITH ONE SOUND WAVE", aliases: &[] },
        Codepoint { codepoint: 0x1F56A, name: "RIGHT SPEAKER WITH THREE SOUND WAVES", aliases: &[] },
        Codepoint { codepoint: 0x1F56B, name: "BULLHORN", aliases: &[] },
        Codepoint { codepoint: 0x1F56C, name: "BULLHORN WITH SOUND WAVES", aliases: &[] },
        Codepoint { codepoint: 0x1F56D, name: "RINGING BELL", aliases: &[] },
        Codepoint { codepoint: 0x1F56E, name: "BOOK", aliases: &[] },
        Codepoint { codepoint: 0x1F56F, name: "CANDLE", aliases: &[] },
    ];
    assert(v@ =~= codepoint_table_807());
    v
}

pub open spec fn codepoint_table_808() -> Seq<Codepoint> {
    seq![
        Codepoint { codepoint: 0x1F570, name: "MANTELPIECE CLOCK", aliases: &[] },
        Codepoint { codepoint: 0x1F571, name: "BLACK SKULL AND CROSSBONES", aliases: &[] },
        Codepoint { codepoint: 0x1F572, name: "NO PIRACY", aliases: &[] },
        Codepoint { codepoint: 0x1F573, name: "HOLE", aliases: &[] },
        Codepoint { codepoint: 0x1F574, name: "MAN IN BUSINESS SUIT LEVITATING", aliases: &[] },
        Codepoint { codepoint: 0x1F575, name: "SLEUTH OR SPY", aliases: &[] },
        Codepoint { codepoint: 0x1F576, name: "DARK SUNGLASSES", aliases: &[] },
        Codepoint { codepoint: 0x1F577, name: "SPIDER", aliases: &[] },
        Codepoint { codepoint: 0x1F578, name: "SPIDER WEB", aliases: &[] },
        Codepoint { codepoint: 0x1F579, name: "JOYSTICK", aliases: &[] },
        Codepoint { codepoint: 0x1F57A, name: "MAN DANCING", aliases: &[] },
        Codepoint { codepoint: 0x1F57B, name: "LEFT HAND TELEPHONE RECEIVER", aliases: &[] },
        Codepoint { codepoint: 0x1F57C, name: "TELEPHONE RECEIVER WITH PAGE", aliases: &[] },
        Codepoint { codepoint: 0x1F57D, name: "RIGHT HAND TELEPHONE RECEIVER", aliases: &[] },
        Codepoint { codepoint: 0x1F57E, name: "WHITE TOUCHTONE TELEPHONE", aliases: &[] },
        Codepoint { codepoint: 0x1F57F, name: "BLACK TOUCHTONE TELEPHONE", aliases: &[] },
        Codepoint { codepoint: 0x1F580, name: "TELEPHONE ON TOP OF MODEM", aliases: &[] },
        Codepoint { codepoint: 0x1F581, name: "CLAMSHELL MOBILE PHONE", aliases: &[] },
        Codepoint { codepoint: 0x1F582, name: "BACK OF ENVELOPE", aliases: &[] },
        Codepoint { codepoint: 0x1F583, name: "STAMPED ENVELOPE", aliases: &[] },
        Codepoint { codepoint: 0x1F584, name: "ENVELOPE WITH LIGHTNING", aliases: &[] },
        Codepoint { codepoint: 0x1F585, name: "FLYING ENVELOPE", aliases: &[] },
        Codepoint { codepoint: 0x1F586, name: "PEN OVER STAMPED ENVELOPE", aliases: &[] },
        Codepoint { codepoint: 0x1F587, name: "LINKED PAPERCLIPS", aliases: &[] },
        Codepoint { codepoint: 0x1F588, name: "BLACK PUSHPIN", aliases: &[] },
        Codepoint { codepoint: 0x1F589, name: "LOWER LEFT PENCIL", aliases: &[] },
        Codepoint { codepoint: 0x1F58A, name: "LOWER LEFT BALLPOINT PEN", aliases: &[] },
        Codepoint { codepoint: 0x1F58B, name: "LOWER LEFT FOUNTAIN PEN", aliases: &[] },
        Codepoint { codepoint: 0x1F58C, name: "LOWER LEFT PAINTBRUSH", aliases: &[] },
        Codepoint { codepoint: 0x1F58D, name: "LOWER LEFT CRAYON", aliases: &[] },
        Codepoint { codepoint: 0x1F58E, name: "LEFT WRITING HAND", aliases: &[] },
        Codepoint { codepoint: 0x1F58F, name: "TURNED OK HAND SIGN", aliases: &[] },
        Codepoint { codepoint: 0x1F590, name: "RAISED HAND WITH FINGERS SPLAYED", aliases: &[] },
        Codepoint { codepoint: 0x1F591, name: "REVERSED RAISED HAND WITH FINGERS SPLAYED", aliases: &[] },
        Codepoint { codepoint: 0x1F592, name: "REVERSED THUMBS UP SIGN", aliases: &[] },
        Codepoint { codepoint: 0x1F593, name: "REVERSED THUMBS DOWN SIGN", aliases: &[] },
        Codepoint { codepoint: 0x1F594, name: "REVERSED VICTORY HAND", aliases: &[] },
        Codepoint { codepoint: 0x1F595, name: "REVERSED HAND WITH MIDDLE FINGER EXTENDED", aliases: &[] },
        Codepoint { codepoint: 0x1F596, name: "RAISED HAND WITH PART BETWEEN MIDDLE AND RING FINGERS", aliases: &[] },
        Codepoint { codepoint: 0x1F597, name: "WHITE DOWN POINTING LEFT HAND INDEX", aliases: &[] },
    ]
}

fn all_codepoints_808() -> (v: Vec<Codepoint>)
    ensures
        v@ == codepoint_table_808(),
{
    let v = vec![
        Codepoint { codepoint: 0x1F570, name: "MANTELPIECE CLOCK", aliases: &[] },
        Codepoint { codepoint: 0x1F571, name: "BLACK SKULL AND CROSSBONES", aliases: &[] },
        Codepoint { codepoint: 0x1F572, name: "NO PIRACY", aliases: &[] },
        Codepoint { codepoint: 0x1F573, name: "HOLE", aliases: &[] },
        Codepoint { codepoint: 0x1F574, name: "MAN IN BUSINESS SUIT LEVITATING", aliases: &[] },
        Codepoint { codepoint: 0x1F575, name: "SLEUTH OR SPY", aliases: &[] },
        Codepoint { codepoint: 0x1F576, name: "DARK SUNGLASSES", aliases: &[] },
        Codepoint { codepoint: 0x1F577, name: "SPIDER", aliases: &[] },
        Codepoint { codepoint: 0x1F578, name: "SPIDER WEB", aliases: &[] },
        Codepoint { codepoint: 0x1F579, name: "JOYSTICK", aliases: &[] },
        Codepoint { codepoint: 0x1F57A, name: "MAN DANCING", aliases: &[] },
        Codepoint { codepoint: 0x1F57B, name: "LEFT HAND TELEPHONE RECEIVER", aliases: &[] },
        Codepoint { codepoint: 0x1F57C, name: "TELEPHONE RECEIVER WITH PAGE", aliases: &[] },
        Codepoint { codepoint: 0x1F57D, name: "RIGHT HAND TELEPHONE RECEIVER", aliases: &[] },
        Codepoint { codepoint: 0x1F57E, name: "WHITE TOUCHTONE TELEPHONE", aliases: &[] },
        Codepoint { codepoint: 0x1F57F, name: "BLACK TOUCHTONE TELEPHONE", aliases: &[] },
        Codepoint { codepoint: 0x1F580, name: "TELEPHONE ON TOP OF MODEM", aliases: &[] },
        Codepoint { codepoint: 0x1F581, name: "CLAMSHELL MOBILE PHONE", aliases: &[] },
        Codepoint { codepoint: 0x1F582, name: "BACK OF ENVELOPE", aliases: &[] },
        Codepoint { codepoint: 0x1F583, name: "STAMPED ENVELOPE", aliases: &[] },
        Codepoint { codepoint: 0x1F584, name: "ENVELOPE WITH LIGHTNING", aliases: &[] },
        Codepoint { codepoint: 0x1F585, name: "FLYING ENVELOPE", aliases: &[] },
        Codepoint { codepoint: 0x1F586, name: "PEN OVER STAMPED ENVELOPE", aliases: &[] },
        Codepoint { codepoint: 0x1F587, name: "LINKED PAPERCLIPS", aliases: &[] },
        Codepoint { codepoint: 0x1F588, name: "BLACK PUSHPIN", aliases: &[] },
        Codepoint { codepoint: 0x1F589, name: "LOWER LEFT PENCIL", aliases: &[] },
        Codepoint { codepoint: 0x1F58A, name: "LOWER LEFT BALLPOINT PEN", aliases: &[] },
        Codepoint { codepoint: 0x1F58B, name: "LOWER LEFT FOUNTAIN PEN", aliases: &[] },
        Codepoint { codepoint: 0x1F58C, name: "LOWER LEFT PAINTBRUSH", aliases: &[] },
        Codepoint { codepoint: 0x1F58D, name: "LOWER LEFT CRAYON", aliases: &[] },
        Codepoint { codepoint: 0x1F58E, name: "LEFT WRITING HAND", aliases: &[] },
        Codepoint { codepoint: 0x1F58F, name: "TURNED OK HAND SIGN", aliases: &[] },
        Codepoint { codepoint: 0x1F590, name: "RAISED HAND WITH FINGERS SPLAYED", aliases: &[] },
        Codepoint { codepoint: 0x1F591, name: "REVERSED RAISED HAND WITH FINGERS SPLAYED", aliases: &[] },
        Codepoint { codepoint: 0x1F592, name: "REVERSED THUMBS UP SIGN", aliases: &[] },
        Codepoint { codepoint: 0x1F593, name: "REVERSED THUMBS DOWN SIGN", aliases: &[] },
        Codepoint { codepoint: 0x1F594, name: "REVERSED VICTORY HAND", aliases: &[] },
        Codepoint { codepoint: 0x1F595, name: "REVERSED HAND WITH MIDDLE FINGER EXTENDED", aliases: &[] },
        Codepoint { codepoint: 0x1F596, name: "RAISED HAND WITH PART BETWEEN MIDDLE AND RING FINGERS", aliases: &[] },
        Codepoint { codepoint: 0x1F597, name: "WHITE DOWN POINTING LEFT HAND INDEX", aliases: &[] },
    ];
    assert(v@ =~= codepoint_table_808());
    v
}

pub open spec fn codepoint_table_809() -> Seq<Codepoint> {
    seq![
        Codepoint { codepoint: 0x1F598, name: "SIDEWAYS WHITE LEFT POINTING INDEX", aliases: &[] },
        Codepoint { codepoint: 0x1F599, name: "SIDEWAYS WHITE RIGHT POINTING INDEX", aliases: &[] },
        Codepoint { codepoint: 0x1F59A, name: "SIDEWAYS BLACK LEFT POINTING INDEX", aliases: &[] },
        Codepoint { codepoint: 0x1F59B, name: "SIDEWAYS BLACK RIGHT POINTING INDEX", aliases: &[] },
        Codepoint { codepoint: 0x1F59C, name: "BLACK LEFT POINTING BACKHAND INDEX", aliases: &[] },
        Codepoint { codepoint: 0x1F59D, name: "BLACK RIGHT POINTING BACKHAND INDEX", aliases: &[] },
        Codepoint { codepoint: 0x1F59E, name: "SIDEWAYS WHITE UP POINTING INDEX", aliases: &[] },
        Codepoint { codepoint: 0x1F59F, name: "SIDEWAYS WHITE DOWN POINTING INDEX", aliases: &[] },
        Codepoint { codepoint: 0x1F5A0, name: "SIDEWAYS BLACK UP POINTING INDEX", aliases: &[] },
        Codepoint { codepoint: 0x1F5A1, name: "SIDEWAYS BLACK DOWN POINTING INDEX", aliases: &[] },
        Codepoint { codepoint: 0x1F5A2, name: "BLACK UP POINTING BACKHAND INDEX", aliases: &[] },
        Codepoint { codepoint: 0x1F5A3, name: "BLACK DOWN POINTING BACKHAND INDEX", aliases: &[] },
        Codepoint { codepoint: 0x1F5A4, name: "BLACK HEART", aliases: &[] },
        Codepoint { codepoint: 0x1F5A5, name: "DESKTOP COMPUTER", aliases: &[] },
        Codepoint { codepoint: 0x1F5A6, name: "KEYBOARD AND MOUSE", aliases: &[] },
        Codepoint { codepoint: 0x1F5A7, name: "THREE NETWORKED COMPUTERS", aliases: &[] },
        Codepoint { codepoint: 0x1F5A8, name: "PRINTER", aliases: &[] },
        Codepoint { codepoint: 0x1F5A9, name: "POCKET CALCULATOR", aliases: &[] },
        Codepoint { codepoint: 0x1F5AA, name: "BLACK HARD SHELL FLOPPY DISK", aliases: &[] },
        Codepoint { codepoint: 0x1F5AB, name: "WHITE HARD SHELL FLOPPY DISK", aliases: &[] },
        Codepoint { codepoint: 0x1F5AC, name: "SOFT SHELL FLOPPY DISK", aliases: &[] },
        Codepoint { codepoint: 0x1F5AD, name: "TAPE CARTRIDGE", aliases: &[] },
        Codepoint { codepoint: 0x1F5AE, name: "WIRED KEYBOARD", aliases: &[] },
        Codepoint { codepoint: 0x1F5AF, name: "ONE BUTTON MOUSE", aliases: &[] },
        Codepoint { codepoint: 0x1F5B0, name: "TWO BUTTON MOUSE", aliases: &[] },
        Codepoint { codepoint: 0x1F5B1, name: "THREE BUTTON MOUSE", aliases: &[] },
        Codepoint { codepoint: 0x1F5B2, name: "TRACKBALL", aliases: &[] },
        Codepoint { codepoint: 0x1F5B3, name: "OLD PERSONAL COMPUTER", aliases: &[] },
        Codepoint { codepoint: 0x1F5B4, name: "HARD DISK", aliases: &[] },
        Codepoint { codepoint: 0x1F5B5, name: "SCREEN", aliases: &[] },
        Codepoint { codepoint: 0x1F5B6, name: "PRINTER ICON", aliases: &[] },
        Codepoint { codepoint: 0x1F5B7, name: "FAX ICON", aliases: &[] },
        Codepoint { codepoint: 0x1F5B8, name: "OPTICAL DISC ICON", aliases: &[] },
        Codepoint { codepoint: 0x1F5B9, name: "DOCUMENT WITH TEXT", aliases: &[] },
        Codepoint { codepoint: 0x1F5BA, name: "DOCUMENT WITH TEXT AND PICTURE", aliases: &[] },
        Codepoint { codepoint: 0x1F5BB, name: "DOCUMENT WITH PICTURE", aliases: &[] },
        Codepoint { codepoint: 0x1F5BC, name: "FRAME WITH PICTURE", aliases: &[] },
        Codepoint { codepoint: 0x1F5BD, name: "FRAME WITH TILES", aliases: &[] },
        Codepoint { codepoint: 0x1F5BE, name: "FRAME WITH AN X", aliases: &[] },
        Codepoint { codepoint: 0x1F5BF, name: "BLACK FOLDER", aliases: &[] },
    ]
}

fn all_codepoints_809() -> (v: Vec<Codepoint>)
    ensures
        v@ == codepoint_table_809(),
{
    let v = vec![
        Codepoint { codepoint: 0x1F598, name: "SIDEWAYS WHITE LEFT POINTING INDEX", aliases: &[] },
        Codepoint { codepoint: 0x1F599, name: "SIDEWAYS WHITE RIGHT POINTING INDEX", aliases: &[] },
        Codepoint { codepoint: 0x1F59A, name: "SIDEWAYS BLACK LEFT POINTING INDEX", aliases: &[] },
        Codepoint { codepoint: 0x1F59B, name: "SIDEWAYS BLACK RIGHT POINTING INDEX", aliases: &[] },
        Codepoint { codepoint: 0x1F59C, name: "BLACK LEFT POINTING BACKHAND INDEX", aliases: &[] },
        Codepoint { codepoint: 0x1F59D, name: "BLACK RIGHT POINTING BACKHAND INDEX", aliases: &[] },
        Codepoint { codepoint: 0x1F59E, name: "SIDEWAYS WHITE UP POINTING INDEX", aliases: &[] },
        Codepoint { codepoint: 0x1F59F, name: "SIDEWAYS WHITE DOWN POINTING INDEX", aliases: &[] },
        Codepoint { codepoint: 0x1F5A0, name: "SIDEWAYS BLACK UP POINTING INDEX", aliases: &[] },
        Codepoint { codepoint: 0x1F5A1, name: "SIDEWAYS BLACK DOWN POINTING INDEX", aliases: &[] },
        Codepoint { codepoint: 0x1F5A2, name: "BLACK UP POINTING BACKHAND INDEX", aliases: &[] },
        Codepoint { codepoint: 0x1F5A3, name: "BLACK DOWN POINTING BACKHAND INDEX", aliases: &[] },
        Codepoint { codepoint: 0x1F5A4, name: "BLACK HEART", aliases: &[] },
        Codepoint { codepoint: 0x1F5A5, name: "DESKTOP COMPUTER", aliases: &[] },
        Codepoint { codepoint: 0x1F5A6, name: "KEYBOARD AND MOUSE", aliases: &[] },
        Codepoint { codepoint: 0x1F5A7, name: "THREE NETWORKED COMPUTERS", aliases: &[] },
        Codepoint { codepoint: 0x1F5A8, name: "PRINTER", aliases: &[] },
        Codepoint { codepoint: 0x1F5A9, name: "POCKET CALCULATOR", aliases: &[] },
        Codepoint { codepoint: 0x1F5AA, name: "BLACK HARD SHELL FLOPPY DISK", aliases: &[] },
        Codepoint { codepoint: 0x1F5AB, name: "WHITE HARD SHELL FLOPPY DISK", aliases: &[] },
        Codepoint { codepoint: 0x1F5AC, name: "SOFT SHELL FLOPPY DISK", aliases: &[] },
        Codepoint { codepoint: 0x1F5AD, name: "TAPE CARTRIDGE", aliases: &[] },
        Codepoint { codepoint: 0x1F5AE, name: "WIRED KEYBOARD", aliases: &[] },
        Codepoint { codepoint: 0x1F5AF, name: "ONE BUTTON MOUSE", aliases: &[] },
        Codepoint { codepoint: 0x1F5B0, name: "TWO BUTTON MOUSE", aliases: &[] },
        Codepoint { codepoint: 0x1F5B1, name: "THREE BUTTON MOUSE", aliases: &[] },
        Codepoint { codepoint: 0x1F5B2, name: "TRACKBALL", aliases: &[] },
        Codepoint { codepoint: 0x1F5B3, name: "OLD PERSONAL COMPUTER", aliases: &[] },
        Codepoint { codepoint: 0x1F5B4, name: "HARD DISK", aliases: &[] },
        Codepoint { codepoint: 0x1F5B5, name: "SCREEN", aliases: &[] },
        Codepoint { codepoint: 0x1F5B6, name: "PRINTER ICON", aliases: &[] },
        Codepoint { codepoint: 0x1F5B7, name: "FAX ICON", aliases: &[] },
        Codepoint { codepoint: 0x1F5B8, name: "OPTICAL DISC ICON", aliases: &[] },
        Codepoint { codepoint: 0x1F5B9, name: "DOCUMENT WITH TEXT", aliases: &[] },
        Codepoint { codepoint: 0x1F5BA, name: "DOCUMENT WITH TEXT AND PICTURE", aliases: &[] },
        Codepoint { codepoint: 0x1F5BB, name: "DOCUMENT WITH PICTURE", aliases: &[] },
        Codepoint { codepoint: 0x1F5BC, name: "FRAME WITH PICTURE", aliases: &[] },
        Codepoint { codepoint: 0x1F5BD, name: "FRAME WITH TILES", aliases: &[] },
        Codepoint { codepoint: 0x1F5BE, name: "FRAME WITH AN X", aliases: &[] },
        Codepoint { codepoint: 0x1F5BF, name: "BLACK FOLDER", aliases: &[] },
    ];
    assert(v@ =~= codepoint_table_809());
    v
}

pub open spec fn codepoint_table_810() -> Seq<Codepoint> {
    seq![
        Codepoint { codepoint: 0x1F5C0, name: "FOLDER", aliases: &[] },
        Codepoint { codepoint: 0x1F5C1, name: "OPEN FOLDER", aliases: &[] },
        Codepoint { codepoint: 0x1F5C2, name: "CARD INDEX DIVIDERS", aliases: &[] },
        Codepoint { codepoint: 0x1F5C3, name: "CARD FILE BOX", aliases: &[] },
        Codepoint { codepoint: 0x1F5C4, name: "FILE CABINET", aliases: &[] },
        Codepoint { codepoint: 0x1F5C5, name: "EMPTY NOTE", aliases: &[] },
        Codepoint { codepoint: 0x1F5C6, name: "EMPTY NOTE PAGE", aliases: &[] },
        Codepoint { codepoint: 0x1F5C7, name: "EMPTY NOTE PAD", aliases: &[] },
        Codepoint { codepoint: 0x1F5C8, name: "NOTE", aliases: &[] },
        Codepoint { codepoint: 0x1F5C9, name: "NOTE PAGE", aliases: &[] },
        Codepoint { codepoint: 0x1F5CA, name: "NOTE PAD", aliases: &[] },
        Codepoint { codepoint: 0x1F5CB, name: "EMPTY DOCUMENT", aliases: &[] },
        Codepoint { codepoint: 0x1F5CC, name: "EMPTY PAGE", aliases: &[] },
        Codepoint { codepoint: 0x1F5CD, name: "EMPTY PAGES", aliases: &[] },
        Codepoint { codepoint: 0x1F5CE, name: "DOCUMENT", aliases: &[] },
        Codepoint { codepoint: 0x1F5CF, name: "PAGE", aliases: &[] },
        Codepoint { codepoint: 0x1F5D0, name: "PAGES", aliases: &[] },
        Codepoint { codepoint: 0x1F5D1, name: "WASTEBASKET", aliases: &[] },
        Codepoint { codepoint: 0x1F5D2, name: "SPIRAL NOTE PAD", aliases: &[] },
        Codepoint { codepoint: 0x1F5D3, name: "SPIRAL CALENDAR PAD", aliases: &[] },
        Codepoint { codepoint: 0x1F5D4, name: "DESKTOP WINDOW", aliases: &[] },
        Codepoint { codepoint: 0x1F5D5, name: "MINIMIZE", aliases: &[] },
        Codepoint { codepoint: 0x1F5D6, name: "MAXIMIZE", aliases: &[] },
        Codepoint { codepoint: 0x1F5D7, name: "OVERLAP", aliases: &[] },
        Codepoint { codepoint: 0x1F5D8, name: "CLOCKWISE RIGHT AND LEFT SEMICIRCLE ARROWS", aliases: &[] },
        Codepoint { codepoint: 0x1F5D9, name: "CANCELLATION X", aliases: &[] },
        Codepoint { codepoint: 0x1F5DA, name: "INCREASE FONT SIZE SYMBOL", aliases: &[] },
        Codepoint { codepoint: 0x1F5DB, name: "DECREASE FONT SIZE SYMBOL", aliases: &[] },
        Codepoint { codepoint: 0x1F5DC, name: "COMPRESSION", aliases: &[] },
        Codepoint { codepoint: 0x1F5DD, name: "OLD KEY", aliases: &[] },
        Codepoint { codepoint: 0x1F5DE, name: "ROLLED-UP NEWSPAPER", aliases: &[] },
        Codepoint { codepoint: 0x1F5DF, name: "PAGE WITH CIRCLED TEXT", aliases: &[] },
        Codepoint { codepoint: 0x1F5E0, name: "STOCK CHART", aliases: &[] },
        Codepoint { codepoint: 0x1F5E1, name: "DAGGER KNIFE", aliases: &[] },
        Codepoint { codepoint: 0x1F5E2, name: "LIPS", aliases: &[] },
        Codepoint { codepoint: 0x1F5E3, name: "SPEAKING HEAD IN SILHOUETTE", aliases: &[] },
        Codepoint { codepoint: 0x1F5E4, name: "THREE RAYS ABOVE", aliases: &[] },
        Codepoint { codepoint: 0x1F5E5, name: "THREE RAYS BELOW", aliases: &[] },
        Codepoint { codepoint: 0x1F5E6, name: "THREE RAYS LEFT", aliases: &[] },
        Codepoint { codepoint: 0x1F5E7, name: "THREE RAYS RIGHT", aliases: &[] },
    ]
}

fn all_codepoints_810() -> (v: Vec<Codepoint>)
    ensures
        v@ == codepoint_table_810(),
{
    let v = vec![
        Codepoint { codepoint: 0x1F5C0, name: "FOLDER", aliases: &[] },
        Codepoint { codepoint: 0x1F5C1, name: "OPEN FOLDER", aliases: &[] },
        Codepoint { codepoint: 0x1F5C2, name: "CARD INDEX DIVIDERS", aliases: &[] },
        Codepoint { codepoint: 0x1F5C3, name: "CARD FILE BOX", aliases: &[] },
        Codepoint { codepoint: 0x1F5C4, name: "FILE CABINET", aliases: &[] },
        Codepoint { codepoint: 0x1F5C5, name: "EMPTY NOTE", aliases: &[] },
        Codepoint { codepoint: 0x1F5C6, name: "EMPTY NOTE PAGE", aliases: &[] },
        Codepoint { codepoint: 0x1F5C7, name: "EMPTY NOTE PAD", aliases: &[] },
        Codepoint { codepoint: 0x1F5C8, name: "NOTE", aliases: &[] },
        Codepoint { codepoint: 0x1F5C9, name: "NOTE PAGE", aliases: &[] },
        Codepoint { codepoint: 0x1F5CA, name: "NOTE PAD", aliases: &[] },
        Codepoint { codepoint: 0x1F5CB, name: "EMPTY DOCUMENT", aliases: &[] },
        Codepoint { codepoint: 0x1F5CC, name: "EMPTY PAGE", aliases: &[] },
        Codepoint { codepoint: 0x1F5CD, name: "EMPTY PAGES", aliases: &[] },
        Codepoint { codepoint: 0x1F5CE, name: "DOCUMENT", aliases: &[] },
        Codepoint { codepoint: 0x1F5CF, name: "PAGE", aliases: &[] },
        Codepoint { codepoint: 0x1F5D0, name: "PAGES", aliases: &[] },
        Codepoint { codepoint: 0x1F5D1, name: "WASTEBASKET", aliases: &[] },
        Codepoint { codepoint: 0x1F5D2, name: "SPIRAL NOTE PAD", aliases: &[] },
        Codepoint { codepoint: 0x1F5D3, name: "SPIRAL CALENDAR PAD", aliases: &[] },
        Codepoint { codepoint: 0x1F5D4, name: "DESKTOP WINDOW", aliases: &[] },
        Codepoint { codepoint: 0x1F5D5, name: "MINIMIZE", aliases: &[] },
        Codepoint { codepoint: 0x1F5D6, name: "MAXIMIZE", aliases: &[] },
        Codepoint { codepoint: 0x1F5D7, name: "OVERLAP", aliases: &[] },
        Codepoint { codepoint: 0x1F5D8, name: "CLOCKWISE RIGHT AND LEFT SEMICIRCLE ARROWS", aliases: &[] },
        Codepoint { codepoint: 0x1F5D9, name: "CANCELLATION X", aliases: &[] },
        Codepoint { codepoint: 0x1F5DA, name: "INCREASE FONT SIZE SYMBOL", aliases: &[] },
        Codepoint { codepoint: 0x1F5DB, name: "DECREASE FONT SIZE SYMBOL", aliases: &[] },
        Codepoint { codepoint: 0x1F5DC, name: "COMPRESSION", aliases: &[] },
        Codepoint { codepoint: 0x1F5DD, name: "OLD KEY", aliases: &[] },
        Codepoint { codepoint: 0x1F5DE, name: "ROLLED-UP NEWSPAPER", aliases: &[] },
        Codepoint { codepoint: 0x1F5DF, name: "PAGE WITH CIRCLED TEXT", aliases: &[] },
        Codepoint { codepoint: 0x1F5E0, name: "STOCK CHART", aliases: &[] },
        Codepoint { codepoint: 0x1F5E1, name: "DAGGER KNIFE", aliases: &[] },
        Codepoint { codepoint: 0x1F5E2, name: "LIPS", aliases: &[] },
        Codepoint { codepoint: 0x1F5E3, name: "SPEAKING HEAD IN SILHOUETTE", aliases: &[] },
        Codepoint { codepoint: 0x1F5E4, name: "THREE RAYS ABOVE", aliases: &[] },
        Codepoint { codepoint: 0x1F5E5, name: "THREE RAYS BELOW", aliases: &[] },
        Codepoint { codepoint: 0x1F5E6, name: "THREE RAYS LEFT", aliases: &[] },
        Codepoint { codepoint: 0x1F5E7, name: "THREE RAYS RIGHT", aliases: &[] },
    ];
    assert(v@ =~= codepoint_table_810());
    v
}

pub open spec fn codepoint_table_811() -> Seq<Codepoint> {
    seq![
        Codepoint { codepoint: 0x1F5E8, name: "LEFT SPEECH BUBBLE", aliases: &[] },
        Codepoint { codepoint: 0x1F5E9, name: "RIGHT SPEECH BUBBLE", aliases: &[] },
        Codepoint { codepoint: 0x1F5EA, name: "TWO SPEECH BUBBLES", aliases: &[] },
        Codepoint { codepoint: 0x1F5EB, name: "THREE SPEECH BUBBLES", aliases: &[] },
        Codepoint { codepoint: 0x1F5EC, name: "LEFT THOUGHT BUBBLE", aliases: &[] },
        Codepoint { codepoint: 0x1F5ED, name: "RIGHT THOUGHT BUBBLE", aliases: &[] },
        Codepoint { codepoint: 0x1F5EE, name: "LEFT ANGER BUBBLE", aliases: &[] },
        Codepoint { codepoint: 0x1F5EF, name: "RIGHT ANGER BUBBLE", aliases: &[] },
        Codepoint { codepoint: 0x1F5F0, name: "MOOD BUBBLE", aliases: &[] },
        Codepoint { codepoint: 0x1F5F1, name: "LIGHTNING MOOD BUBBLE", aliases: &[] },
        Codepoint { codepoint: 0x1F5F2, name: "LIGHTNING MOOD", aliases: &[] },
        Codepoint { codepoint: 0x1F5F3, name: "BALLOT BOX WITH BALLOT", aliases: &[] },
        Codepoint { codepoint: 0x1F5F4, name: "BALLOT SCRIPT X", aliases: &[] },
        Codepoint { codepoint: 0x1F5F5, name: "BALLOT BOX WITH SCRIPT X", aliases: &[] },
        Codepoint { codepoint: 0x1F5F6, name: "BALLOT BOLD SCRIPT X", aliases: &[] },
        Codepoint { codepoint: 0x1F5F7, name: "BALLOT BOX WITH BOLD SCRIPT X", aliases: &[] },
        Codepoint { codepoint: 0x1F5F8, name: "LIGHT CHECK MARK", aliases: &[] },
        Codepoint { codepoint: 0x1F5F9, name: "BALLOT BOX WITH BOLD CHECK", aliases: &[] },
        Codepoint { codepoint: 0x1F5FA, name: "WORLD MAP", aliases: &[] },
        Codepoint { codepoint: 0x1F5FB, name: "MOUNT FUJI", aliases: &[] },
        Codepoint { codepoint: 0x1F5FC, name: "TOKYO TOWER", aliases: &[] },
        Codepoint { codepoint: 0x1F5FD, name: "STATUE OF LIBERTY", aliases: &[] },
        Codepoint { codepoint: 0x1F5FE, name: "SILHOUETTE OF JAPAN", aliases: &[] },
        Codepoint { codepoint: 0x1F5FF, name: "MOYAI", aliases: &[] },
        Codepoint { codepoint: 0x1F600, name: "GRINNING FACE", aliases: &[] },
        Codepoint { codepoint: 0x1F601, name: "GRINNING FACE WITH SMILING EYES", aliases: &[] },
        Codepoint { codepoint: 0x1F602, name: "FACE WITH TEARS OF JOY", aliases: &[] },
        Codepoint { codepoint: 0x1F603, name: "SMILING FACE WITH OPEN MOUTH", aliases: &[] },
        Codepoint { codepoint: 0x1F604, name: "SMILING FACE WITH OPEN MOUTH AND SMILING EYES", aliases: &[] },
        Codepoint { codepoint: 0x1F605, name: "SMILING FACE WITH OPEN MOUTH AND COLD SWEAT", aliases: &[] },
        Codepoint { codepoint: 0x1F606, name: "SMILING FACE WITH OPEN MOUTH AND TIGHTLY-CLOSED EYES", aliases: &[] },
        Codepoint { codepoint: 0x1F607, name: "SMILING FACE WITH HALO", aliases: &[] },
        Codepoint { codepoint: 0x1F608, name: "SMILING FACE WITH HORNS", aliases: &[] },
        Codepoint { codepoint: 0x1F609, name: "WINKING FACE", aliases: &[] },
        Codepoint { codepoint: 0x1F60A, name: "SMILING FACE WITH SMILING EYES", aliases: &[] },
        Codepoint { codepoint: 0x1F60B, name: "FACE SAVOURING DELICIOUS FOOD", aliases: &[] },
        Codepoint { codepoint: 0x1F60C, name: "RELIEVED FACE", aliases: &[] },
        Codepoint { codepoint: 0x1F60D, name: "SMILING FACE WITH HEART-SHAPED EYES", aliases: &[] },
        Codepoint { codepoint: 0x1F60E, name: "SMILING FACE WITH SUNGLASSES", aliases: &[] },
        Codepoint { codepoint: 0x1F60F, name: "SMIRKING FACE", aliases: &[] },
    ]
}

fn all_codepoints_811() -> (v: Vec<Codepoint>)
    ensures
        v@ == codepoint_table_811(),
{
    let v = vec![
        Codepoint { codepoint: 0x1F5E8, name: "LEFT SPEECH BUBBLE", aliases: &[] },
        Codepoint { codepoint: 0x1F5E9, name: "RIGHT SPEECH BUBBLE", aliases: &[] },
        Codepoint { codepoint: 0x1F5EA, name: "TWO SPEECH BUBBLES", aliases: &[] },
        Codepoint { codepoint: 0x1F5EB, name: "THREE SPEECH BUBBLES", aliases: &[] },
        Codepoint { codepoint: 0x1F5EC, name: "LEFT THOUGHT BUBBLE", aliases: &[] },
        Codepoint { codepoint: 0x1F5ED, name: "RIGHT THOUGHT BUBBLE", aliases: &[] },
        Codepoint { codepoint: 0x1F5EE, name: "LEFT ANGER BUBBLE", aliases: &[] },
        Codepoint { codepoint: 0x1F5EF, name: "RIGHT ANGER BUBBLE", aliases: &[] },
        Codepoint { codepoint: 0x1F5F0, name: "MOOD BUBBLE", aliases: &[] },
        Codepoint { codepoint: 0x1F5F1, name: "LIGHTNING MOOD BUBBLE", aliases: &[] },
        Codepoint { codepoint: 0x1F5F2, name: "LIGHTNING MOOD", aliases: &[] },
        Codepoint { codepoint: 0x1F5F3, name: "BALLOT BOX WITH BALLOT", aliases: &[] },
        Codepoint { codepoint: 0x1F5F4, name: "BALLOT SCRIPT X", aliases: &[] },
        Codepoint { codepoint: 0x1F5F5, name: "BALLOT BOX WITH SCRIPT X", aliases: &[] },
        Codepoint { codepoint: 0x1F5F6, name: "BALLOT BOLD SCRIPT X", aliases: &[] },
        Codepoint { codepoint: 0x1F5F7, name: "BALLOT BOX WITH BOLD SCRIPT X", aliases: &[] },
        Codepoint { codepoint: 0x1F5F8, name: "LIGHT CHECK MARK", aliases: &[] },
        Codepoint { codepoint: 0x1F5F9, name: "BALLOT BOX WITH BOLD CHECK", aliases: &[] },
        Codepoint { codepoint: 0x1F5FA, name: "WORLD MAP", aliases: &[] },
        Codepoint { codepoint: 0x1F5FB, name: "MOUNT FUJI", aliases: &[] },
        Codepoint { codepoint: 0x1F5FC, name: "TOKYO TOWER", aliases: &[] },
        Codepoint { codepoint: 0x1F5FD, name: "STATUE OF LIBERTY", aliases: &[] },
        Codepoint { codepoint: 0x1F5FE, name: "SILHOUETTE OF JAPAN", aliases: &[] },
        Codepoint { codepoint: 0x1F5FF, name: "MOYAI", aliases: &[] },
        Codepoint { codepoint: 0x1F600, name: "GRINNING FACE", aliases: &[] },
        Codepoint { codepoint: 0x1F601, name: "GRINNING FACE WITH SMILING EYES", aliases: &[] },
        Codepoint { codepoint: 0x1F602, name: "FACE WITH TEARS OF JOY", aliases: &[] },
        Codepoint { codepoint: 0x1F603, name: "SMILING FACE WITH OPEN MOUTH", aliases: &[] },
        Codepoint { codepoint: 0x1F604, name: "SMILING FACE WITH OPEN MOUTH AND SMILING EYES", aliases: &[] },
        Codepoint { codepoint: 0x1F605, name: "SMILING FACE WITH OPEN MOUTH AND COLD SWEAT", aliases: &[] },
        Codepoint { codepoint: 0x1F606, name: "SMILING FACE WITH OPEN MOUTH AND TIGHTLY-CLOSED EYES", aliases: &[] },
        Codepoint { codepoint: 0x1F607, name: "SMILING FACE WITH HALO", aliases: &[] },
        Codepoint { codepoint: 0x1F608, name: "SMILING FACE WITH HORNS", aliases: &[] },
        Codepoint { codepoint: 0x1F609, name: "WINKING FACE", aliases: &[] },
        Codepoint { codepoint: 0x1F60A, name: "SMILING FACE WITH SMILING EYES", aliases: &[] },
        Codepoint { codepoint: 0x1F60B, name: "FACE SAVOURING DELICIOUS FOOD", aliases: &[] },
        Codepoint { codepoint: 0x1F60C, name: "RELIEVED FACE", aliases: &[] },
        Codepoint { codepoint: 0x1F60D, name: "SMILING FACE WITH HEART-SHAPED EYES", aliases: &[] },
        Codepoint { codepoint: 0x1F60E, name: "SMILING FACE WITH SUNGLASSES", aliases: &[] },
        Codepoint { codepoint: 0x1F60F, name: "SMIRKING FACE", aliases: &[] },
    ];
    assert(v@ =~= codepoint_table_811());
    v
}

pub open spec fn codepoint_table_812() -> Seq<Codepoint> {
    seq![
        Codepoint { codepoint: 0x1F610, name: "NEUTRAL FACE", aliases: &[] },
        Codepoint { codepoint: 0x1F611, name: "EXPRESSIONLESS FACE", aliases: &[] },
        Codepoint { codepoint: 0x1F612, name: "UNAMUSED FACE", aliases: &[] },
        Codepoint { codepoint: 0x1F613, name: "FACE WITH COLD SWEAT", aliases: &[] },
        Codepoint { codepoint: 0x1F614, name: "PENSIVE FACE", aliases: &[] },
        Codepoint { codepoint: 0x1F615, name: "CONFUSED FACE", aliases: &[] },
        Codepoint { codepoint: 0x1F616, name: "CONFOUNDED FACE", aliases: &[] },
        Codepoint { codepoint: 0x1F617, name: "KISSING FACE", aliases: &[] },
        Codepoint { codepoint: 0x1F618, name: "FACE THROWING A KISS", aliases: &[] },
        Codepoint { codepoint: 0x1F619, name: "KISSING FACE WITH SMILING EYES", aliases: &[] },
        Codepoint { codepoint: 0x1F61A, name: "KISSING FACE WITH CLOSED EYES", aliases: &[] },
        Codepoint { codepoint: 0x1F61B, name: "FACE WITH STUCK-OUT TONGUE", aliases: &[] },
        Codepoint { codepoint: 0x1F61C, name: "FACE WITH STUCK-OUT TONGUE AND WINKING EYE", aliases: &[] },
        Codepoint { codepoint: 0x1F61D, name: "FACE WITH STUCK-OUT TONGUE AND TIGHTLY-CLOSED EYES", aliases: &[] },
        Codepoint { codepoint: 0x1F61E, name: "DISAPPOINTED FACE", aliases: &[] },
        Codepoint { codepoint: 0x1F61F, name: "WORRIED FACE", aliases: &[] },
        Codepoint { codepoint: 0x1F620, name: "ANGRY FACE", aliases: &[] },
        Codepoint { codepoint: 0x1F621, name: "POUTING FACE", aliases: &[] },
        Codepoint { codepoint: 0x1F622, name: "CRYING FACE", aliases: &[] },
        Codepoint { codepoint: 0x1F623, name: "PERSEVERING FACE", aliases: &[] },
        Codepoint { codepoint: 0x1F624, name: "FACE WITH LOOK OF TRIUMPH", aliases: &[] },
        Codepoint { codepoint: 0x1F625, name: "DISAPPOINTED BUT RELIEVED FACE", aliases: &[] },
        Codepoint { codepoint: 0x1F626, name: "FROWNING FACE WITH OPEN MOUTH", aliases: &[] },
        Codepoint { codepoint: 0x1F627, name: "ANGUISHED FACE", aliases: &[] },
        Codepoint { codepoint: 0x1F628, name: "FEARFUL FACE", aliases: &[] },
        Codepoint { codepoint: 0x1F629, name: "WEARY FACE", aliases: &[] },
        Codepoint { codepoint: 0x1F62A, name: "SLEEPY FACE", aliases: &[] },
        Codepoint { codepoint: 0x1F62B, name: "TIRED FACE", aliases: &[] },
        Codepoint { codepoint: 0x1F62C, name: "GRIMACING FACE", aliases: &[] },
        Codepoint { codepoint: 0x1F62D, name: "LOUDLY CRYING FACE", aliases: &[] },
        Codepoint { codepoint: 0x1F62E, name: "FACE WITH OPEN MOUTH", aliases: &[] },
        Codepoint { codepoint: 0x1F62F, name: "HUSHED FACE", aliases: &[] },
        Codepoint { codepoint: 0x1F630, name: "FACE WITH OPEN MOUTH AND COLD SWEAT", aliases: &[] },
        Codepoint { codepoint: 0x1F631, name: "FACE SCREAMING IN FEAR", aliases: &[] },
        Codepoint { codepoint: 0x1F632, name: "ASTONISHED FACE", aliases: &[] },
        Codepoint { codepoint: 0x1F633, name: "FLUSHED FACE", aliases: &[] },
        Codepoint { codepoint: 0x1F634, name: "SLEEPING FACE", aliases: &[] },
        Codepoint { codepoint: 0x1F635, name: "DIZZY FACE", aliases: &[] },
        Codepoint { codepoint: 0x1F636, name: "FACE WITHOUT MOUTH", aliases: &[] },
        Codepoint { codepoint: 0x1F637, name: "FACE WITH MEDICAL MASK", aliases: &[] },
    ]
}

fn all_codepoints_812() -> (v: Vec<Codepoint>)
    ensures
        v@ == codepoint_table_812(),
{
    let v = vec![
        Codepoint { codepoint: 0x1F610, name: "NEUTRAL FACE", aliases: &[] },
        Codepoint { codepoint: 0x1F611, name: "EXPRESSIONLESS FACE", aliases: &[] },
        Codepoint { codepoint: 0x1F612, name: "UNAMUSED FACE", aliases: &[] },
        Codepoint { codepoint: 0x1F613, name: "FACE WITH COLD SWEAT", aliases: &[] },
        Codepoint { codepoint: 0x1F614, name: "PENSIVE FACE", aliases: &[] },
        Codepoint { codepoint: 0x1F615, name: "CONFUSED FACE", aliases: &[] },
        Codepoint { codepoint: 0x1F616, name: "CONFOUNDED FACE", aliases: &[] },
        Codepoint { codepoint: 0x1F617, name: "KISSING FACE", aliases: &[] },
        Codepoint { codepoint: 0x1F618, name: "FACE THROWING A KISS", aliases: &[] },
        Codepoint { codepoint: 0x1F619, name: "KISSING FACE WITH SMILING EYES", aliases: &[] },
        Codepoint { codepoint: 0x1F61A, name: "KISSING FACE WITH CLOSED EYES", aliases: &[] },
        Codepoint { codepoint: 0x1F61B, name: "FACE WITH STUCK-OUT TONGUE", aliases: &[] },
        Codepoint { codepoint: 0x1F61C, name: "FACE WITH STUCK-OUT TONGUE AND WINKING EYE", aliases: &[] },
        Codepoint { codepoint: 0x1F61D, name: "FACE WITH STUCK-OUT TONGUE AND TIGHTLY-CLOSED EYES", aliases: &[] },
        Codepoint { codepoint: 0x1F61E, name: "DISAPPOINTED FACE", aliases: &[] },
        Codepoint { codepoint: 0x1F61F, name: "WORRIED FACE", aliases: &[] },
        Codepoint { codepoint: 0x1F620, name: "ANGRY FACE", aliases: &[] },
        Codepoint { codepoint: 0x1F621, name: "POUTING FACE", aliases: &[] },
        Codepoint { codepoint: 0x1F622, name: "CRYING FACE", aliases: &[] },
        Codepoint { codepoint: 0x1F623, name: "PERSEVERING FACE", aliases: &[] },
        Codepoint { codepoint: 0x1F624, name: "FACE WITH LOOK OF TRIUMPH", aliases: &[] },
        Codepoint { codepoint: 0x1F625, name: "DISAPPOINTED BUT RELIEVED FACE", aliases: &[] },
        Codepoint { codepoint: 0x1F626, name: "FROWNING FACE WITH OPEN MOUTH", aliases: &[] },
        Codepoint { codepoint: 0x1F627, name: "ANGUISHED FACE", aliases: &[] },
        Codepoint { codepoint: 0x1F628, name: "FEARFUL FACE", aliases: &[] },
        Codepoint { codepoint: 0x1F629, name: "WEARY FACE", aliases: &[] },
        Codepoint { codepoint: 0x1F62A, name: "SLEEPY FACE", aliases: &[] },
        Codepoint { codepoint: 0x1F62B, name: "TIRED FACE", aliases: &[] },
        Codepoint { codepoint: 0x1F62C, name: "GRIMACING FACE", aliases: &[] },
        Codepoint { codepoint: 0x1F62D, name: "LOUDLY CRYING FACE", aliases: &[] },
        Codepoint { codepoint: 0x1F62E, name: "FACE WITH OPEN MOUTH", aliases: &[] },
        Codepoint { codepoint: 0x1F62F, name: "HUSHED FACE", aliases: &[] },
        Codepoint { codepoint: 0x1F630, name: "FACE WITH OPEN MOUTH AND COLD SWEAT", aliases: &[] },
        Codepoint { codepoint: 0x1F631, name: "FACE SCREAMING IN FEAR", aliases: &[] },
        Codepoint { codepoint: 0x1F632, name: "ASTONISHED FACE", aliases: &[] },
        Codepoint { codepoint: 0x1F633, name: "FLUSHED FACE", aliases: &[] },
        Codepoint { codepoint: 0x1F634, name: "SLEEPING FACE", aliases: &[] },
        Codepoint { codepoint: 0x1F635, name: "DIZZY FACE", aliases: &[] },
        Codepoint { codepoint: 0x1F636, name: "FACE WITHOUT MOUTH", aliases: &[] },
        Codepoint { codepoint: 0x1F637, name: "FACE WITH MEDICAL MASK", aliases: &[] },
    ];
    assert(v@ =~= codepoint_table_812());
    v
}

pub open spec fn codepoint_table_813() -> Seq<Codepoint> {
    seq![
        Codepoint { codepoint: 0x1F638, name: "GRINNING CAT FACE WITH SMILING EYES", aliases: &[] },
        Codepoint { codepoint: 0x1F639, name: "CAT FACE WITH TEARS OF JOY", aliases: &[] },
        Codepoint { codepoint: 0x1F63A, name: "SMILING CAT FACE WITH OPEN MOUTH", aliases: &[] },
        Codepoint { codepoint: 0x1F63B, name: "SMILING CAT FACE WITH HEART-SHAPED EYES", aliases: &[] },
        Codepoint { codepoint: 0x1F63C, name: "CAT FACE WITH WRY SMILE", aliases: &[] },
        Codepoint { codepoint: 0x1F63D, name: "KISSING CAT FACE WITH CLOSED EYES", aliases: &[] },
        Codepoint { codepoint: 0x1F63E, name: "POUTING CAT FACE", aliases: &[] },
        Codepoint { codepoint: 0x1F63F, name: "CRYING CAT FACE", aliases: &[] },
        Codepoint { codepoint: 0x1F640, name: "WEARY CAT FACE", aliases: &[] },
        Codepoint { codepoint: 0x1F641, name: "SLIGHTLY FROWNING FACE", aliases: &[] },
        Codepoint { codepoint: 0x1F642, name: "SLIGHTLY SMILING FACE", aliases: &[] },
        Codepoint { codepoint: 0x1F643, name: "UPSIDE-DOWN FACE", aliases: &[] },
        Codepoint { codepoint: 0x1F644, name: "FACE WITH ROLLING EYES", aliases: &[] },
        Codepoint { codepoint: 0x1F645, name: "FACE WITH NO GOOD GESTURE", aliases: &[] },
        Codepoint { codepoint: 0x1F646, name: "FACE WITH OK GESTURE", aliases: &[] },
        Codepoint { codepoint: 0x1F647, name: "PERSON BOWING DEEPLY", aliases: &[] },
        Codepoint { codepoint: 0x1F648, name: "SEE-NO-EVIL MONKEY", aliases: &[] },
        Codepoint { codepoint: 0x1F649, name: "HEAR-NO-EVIL MONKEY", aliases: &[] },
        Codepoint { codepoint: 0x1F64A, name: "SPEAK-NO-EVIL MONKEY", aliases: &[] },
        Codepoint { codepoint: 0x1F64B, name: "HAPPY PERSON RAISING ONE HAND", aliases: &[] },
        Codepoint { codepoint: 0x1F64C, name: "PERSON RAISING BOTH HANDS IN CELEBRATION", aliases: &[] },
        Codepoint { codepoint: 0x1F64D, name: "PERSON FROWNING", aliases: &[] },
        Codepoint { codepoint: 0x1F64E, name: "PERSON WITH POUTING FACE", aliases: &[] },
        Codepoint { codepoint: 0x1F64F, name: "PERSON WITH FOLDED HANDS", aliases: &[] },
        Codepoint { codepoint: 0x1F650, name: "NORTH WEST POINTING LEAF", aliases: &[] },
        Codepoint { codepoint: 0x1F651, name: "SOUTH WEST POINTING LEAF", aliases: &[] },
        Codepoint { codepoint: 0x1F652, name: "NORTH EAST POINTING LEAF", aliases: &[] },
        Codepoint { codepoint: 0x1F653, name: "SOUTH EAST POINTING LEAF", aliases: &[] },
        Codepoint { codepoint: 0x1F654, name: "TURNED NORTH WEST POINTING LEAF", aliases: &[] },
        Codepoint { codepoint: 0x1F655, name: "TURNED SOUTH WEST POINTING LEAF", aliases: &[] },
        Codepoint { codepoint: 0x1F656, name: "TURNED NORTH EAST POINTING LEAF", aliases: &[] },
        Codepoint { codepoint: 0x1F657, name: "TURNED SOUTH EAST POINTING LEAF", aliases: &[] },
        Codepoint { codepoint: 0x1F658, name: "NORTH WEST POINTING VINE LEAF", aliases: &[] },
        Codepoint { codepoint: 0x1F659, name: "SOUTH WEST POINTING VINE LEAF", aliases: &[] },
        Codepoint { codepoint: 0x1F65A, name: "NORTH EAST POINTING VINE LEAF", aliases: &[] },
        Codepoint { codepoint: 0x1F65B, name: "SOUTH EAST POINTING VINE LEAF", aliases: &[] },
        Codepoint { codepoint: 0x1F65C, name: "HEAVY NORTH WEST POINTING VINE LEAF", aliases: &[] },
        Codepoint { codepoint: 0x1F65D, name: "HEAVY SOUTH WEST POINTING VINE LEAF", aliases: &[] },
        Codepoint { codepoint: 0x1F65E, name: "HEAVY NORTH EAST POINTING VINE LEAF", aliases: &[] },
        Codepoint { codepoint: 0x1F65F, name: "HEAVY SOUTH EAST POINTING VINE LEAF", aliases: &[] },
    ]
}

fn all_codepoints_813() -> (v: Vec<Codepoint>)
    ensures
        v@ == codepoint_table_813(),
{
    let v = vec![
        Codepoint { codepoint: 0x1F638, name: "GRINNING CAT FACE WITH SMILING EYES", aliases: &[] },
        Codepoint { codepoint: 0x1F639, name: "CAT FACE WITH TEARS OF JOY", aliases: &[] },
        Codepoint { codepoint: 0x1F63A, name: "SMILING CAT FACE WITH OPEN MOUTH", aliases: &[] },
        Codepoint { codepoint: 0x1F63B, name: "SMILING CAT FACE WITH HEART-SHAPED EYES", aliases: &[] },
        Codepoint { codepoint: 0x1F63C, name: "CAT FACE WITH WRY SMILE", aliases: &[] },
        Codepoint { codepoint: 0x1F63D, name: "KISSING CAT FACE WITH CLOSED EYES", aliases: &[] },
        Codepoint { codepoint: 0x1F63E, name: "POUTING CAT FACE", aliases: &[] },
        Codepoint { codepoint: 0x1F63F, name: "CRYING CAT FACE", aliases: &[] },
        Codepoint { codepoint: 0x1F640, name: "WEARY CAT FACE", aliases: &[] },
        Codepoint { codepoint: 0x1F641, name: "SLIGHTLY FROWNING FACE", aliases: &[] },
        Codepoint { codepoint: 0x1F642, name: "SLIGHTLY SMILING FACE", aliases: &[] },
        Codepoint { codepoint: 0x1F643, name: "UPSIDE-DOWN FACE", aliases: &[] },
        Codepoint { codepoint: 0x1F644, name: "FACE WITH ROLLING EYES", aliases: &[] },
        Codepoint { codepoint: 0x1F645, name: "FACE WITH NO GOOD GESTURE", aliases: &[] },
        Codepoint { codepoint: 0x1F646, name: "FACE WITH OK GESTURE", aliases: &[] },
        Codepoint { codepoint: 0x1F647, name: "PERSON BOWING DEEPLY", aliases: &[] },
        Codepoint { codepoint: 0x1F648, name: "SEE-NO-EVIL MONKEY", aliases: &[] },
        Codepoint { codepoint: 0x1F649, name: "HEAR-NO-EVIL MONKEY", aliases: &[] },
        Codepoint { codepoint: 0x1F64A, name: "SPEAK-NO-EVIL MONKEY", aliases: &[] },
        Codepoint { codepoint: 0x1F64B, name: "HAPPY PERSON RAISING ONE HAND", aliases: &[] },
        Codepoint { codepoint: 0x1F64C, name: "PERSON RAISING BOTH HANDS IN CELEBRATION", aliases: &[] },
        Codepoint { codepoint: 0x1F64D, name: "PERSON FROWNING", aliases: &[] },
        Codepoint { codepoint: 0x1F64E, name: "PERSON WITH POUTING FACE", aliases: &[] },
        Codepoint { codepoint: 0x1F64F, name: "PERSON WITH FOLDED HANDS", aliases: &[] },
        Codepoint { codepoint: 0x1F650, name: "NORTH WEST POINTING LEAF", aliases: &[] },
        Codepoint { codepoint: 0x1F651, name: "SOUTH WEST POINTING LEAF", aliases: &[] },
        Codepoint { codepoint: 0x1F652, name: "NORTH EAST POINTING LEAF", aliases: &[] },
        Codepoint { codepoint: 0x1F653, name: "SOUTH EAST POINTING LEAF", aliases: &[] },
        Codepoint { codepoint: 0x1F654, name: "TURNED NORTH WEST POINTING LEAF", aliases: &[] },
        Codepoint { codepoint: 0x1F655, name: "TURNED SOUTH WEST POINTING LEAF", aliases: &[] },
        Codepoint { codepoint: 0x1F656, name: "TURNED NORTH EAST POINTING LEAF", aliases: &[] },
        Codepoint { codepoint: 0x1F657, name: "TURNED SOUTH EAST POINTING LEAF", aliases: &[] },
        Codepoint { codepoint: 0x1F658, name: "NORTH WEST POINTING VINE LEAF", aliases: &[] },
        Codepoint { codepoint: 0x1F659, name: "SOUTH WEST POINTING VINE LEAF", aliases: &[] },
        Codepoint { codepoint: 0x1F65A, name: "NORTH EAST POINTING VINE LEAF", aliases: &[] },
        Codepoint { codepoint: 0x1F65B, name: "SOUTH EAST POINTING VINE LEAF", aliases: &[] },
        Codepoint { codepoint: 0x1F65C, name: "HEAVY NORTH WEST POINTING VINE LEAF", aliases: &[] },
        Codepoint { codepoint: 0x1F65D, name: "HEAVY SOUTH WEST POINTING VINE LEAF", aliases: &[] },
        Codepoint { codepoint: 0x1F65E, name: "HEAVY NORTH EAST POINTING VINE LEAF", aliases: &[] },
        Codepoint { codepoint: 0x1F65F, name: "HEAVY SOUTH EAST POINTING VINE LEAF", aliases: &[] },
    ];
    assert(v@ =~= codepoint_table_813());
    v
}

pub open spec fn codepoint_table_814() -> Seq<Codepoint> {
    seq![
        Codepoint { codepoint: 0x1F660, name: "NORTH WEST POINTING BUD", aliases: &[] },
        Codepoint { codepoint: 0x1F661, name: "SOUTH WEST POINTING BUD", aliases: &[] },
        Codepoint { codepoint: 0x1F662, name: "NORTH EAST POINTING BUD", aliases: &[] },
        Codepoint { codepoint: 0x1F663, name: "SOUTH EAST POINTING BUD", aliases: &[] },
        Codepoint { codepoint: 0x1F664, name: "HEAVY NORTH WEST POINTING BUD", aliases: &[] },
        Codepoint { codepoint: 0x1F665, name: "HEAVY SOUTH WEST POINTING BUD", aliases: &[] },
        Codepoint { codepoint: 0x1F666, name: "HEAVY NORTH EAST POINTING BUD", aliases: &[] },
        Codepoint { codepoint: 0x1F667, name: "HEAVY SOUTH EAST POINTING BUD", aliases: &[] },
        Codepoint { codepoint: 0x1F668, name: "HOLLOW QUILT SQUARE ORNAMENT", aliases: &[] },
        Codepoint { codepoint: 0x1F669, name: "HOLLOW QUILT SQUARE ORNAMENT IN BLACK SQUARE", aliases: &[] },
        Codepoint { codepoint: 0x1F66A, name: "SOLID QUILT SQUARE ORNAMENT", aliases: &[] },
        Codepoint { codepoint: 0x1F66B, name: "SOLID QUILT SQUARE ORNAMENT IN BLACK SQUARE", aliases: &[] },
        Codepoint { codepoint: 0x1F66C, name: "LEFTWARDS ROCKET", aliases: &[] },
        Codepoint { codepoint: 0x1F66D, name: "UPWARDS ROCKET", aliases: &[] },
        Codepoint { codepoint: 0x1F66E, name: "RIGHTWARDS ROCKET", aliases: &[] },
        Codepoint { codepoint: 0x1F66F, name: "DOWNWARDS ROCKET", aliases: &[] },
        Codepoint { codepoint: 0x1F670, name: "SCRIPT LIGATURE ET ORNAMENT", aliases: &[] },
        Codepoint { codepoint: 0x1F671, name: "HEAVY SCRIPT LIGATURE ET ORNAMENT", aliases: &[] },
        Codepoint { codepoint: 0x1F672, name: "LIGATURE OPEN ET ORNAMENT", aliases: &[] },
        Codepoint { codepoint: 0x1F673, name: "HEAVY LIGATURE OPEN ET ORNAMENT", aliases: &[] },
        Codepoint { codepoint: 0x1F674, name: "HEAVY AMPERSAND ORNAMENT", aliases: &[] },
        Codepoint { codepoint: 0x1F675, name: "SWASH AMPERSAND ORNAMENT", aliases: &[] },
        Codepoint { codepoint: 0x1F676, name: "SANS-SERIF HEAVY DOUBLE TURNED COMMA QUOTATION MARK ORNAMENT", aliases: &[] },
        Codepoint { codepoint: 0x1F677, name: "SANS-SERIF HEAVY DOUBLE COMMA QUOTATION MARK ORNAMENT", aliases: &[] },
        Codepoint { codepoint: 0x1F678, name: "SANS-SERIF HEAVY LOW DOUBLE COMMA QUOTATION MARK ORNAMENT", aliases: &[] },
        Codepoint { codepoint: 0x1F679, name: "HEAVY INTERROBANG ORNAMENT", aliases: &[] },
        Codepoint { codepoint: 0x1F67A, name: "SANS-SERIF INTERROBANG ORNAMENT", aliases: &[] },
        Codepoint { codepoint: 0x1F67B, name: "HEAVY SANS-SERIF INTERROBANG ORNAMENT", aliases: &[] },
        Codepoint { codepoint: 0x1F67C, name: "VERY HEAVY SOLIDUS", aliases: &[] },
        Codepoint { codepoint: 0x1F67D, name: "VERY HEAVY REVERSE SOLIDUS", aliases: &[] },
        Codepoint { codepoint: 0x1F67E, name: "CHECKER BOARD", aliases: &[] },
        Codepoint { codepoint: 0x1F67F, name: "REVERSE CHECKER BOARD", aliases: &[] },
        Codepoint { codepoint: 0x1F680, name: "ROCKET", aliases: &[] },
        Codepoint { codepoint: 0x1F681, name: "HELICOPTER", aliases: &[] },
        Codepoint { codepoint: 0x1F682, name: "STEAM LOCOMOTIVE", aliases: &[] },
        Codepoint { codepoint: 0x1F683, name: "RAILWAY CAR", aliases: &[] },
        Codepoint { codepoint: 0x1F684, name: "HIGH-SPEED TRAIN", aliases: &[] },
        Codepoint { codepoint: 0x1F685, name: "HIGH-SPEED TRAIN WITH BULLET NOSE", aliases: &[] },
        Codepoint { codepoint: 0x1F686, name: "TRAIN", aliases: &[] },
        Codepoint { codepoint: 0x1F687, name: "METRO", aliases: &[] },
    ]
}

fn all_codepoints_814() -> (v: Vec<Codepoint>)
    ensures
        v@ == codepoint_table_814(),
{
    let v = vec![
        Codepoint { codepoint: 0x1F660, name: "NORTH WEST POINTING BUD", aliases: &[] },
        Codepoint { codepoint: 0x1F661, name: "SOUTH WEST POINTING BUD", aliases: &[] },
        Codepoint { codepoint: 0x1F662, name: "NORTH EAST POINTING BUD", aliases: &[] },
        Codepoint { codepoint: 0x1F663, name: "SOUTH EAST POINTING BUD", aliases: &[] },
        Codepoint { codepoint: 0x1F664, name: "HEAVY NORTH WEST POINTING BUD", aliases: &[] },
        Codepoint { codepoint: 0x1F665, name: "HEAVY SOUTH WEST POINTING BUD", aliases: &[] },
        Codepoint { codepoint: 0x1F666, name: "HEAVY NORTH EAST POINTING BUD", aliases: &[] },
        Codepoint { codepoint: 0x1F667, name: "HEAVY SOUTH EAST POINTING BUD", aliases: &[] },
        Codepoint { codepoint: 0x1F668, name: "HOLLOW QUILT SQUARE ORNAMENT", aliases: &[] },
        Codepoint { codepoint: 0x1F669, name: "HOLLOW QUILT SQUARE ORNAMENT IN BLACK SQUARE", aliases: &[] },
        Codepoint { codepoint: 0x1F66A, name: "SOLID QUILT SQUARE ORNAMENT", aliases: &[] },
        Codepoint { codepoint: 0x1F66B, name: "SOLID QUILT SQUARE ORNAMENT IN BLACK SQUARE", aliases: &[] },
        Codepoint { codepoint: 0x1F66C, name: "LEFTWARDS ROCKET", aliases: &[] },
        Codepoint { codepoint: 0x1F66D, name: "UPWARDS ROCKET", aliases: &[] },
        Codepoint { codepoint: 0x1F66E, name: "RIGHTWARDS ROCKET", aliases: &[] },
        Codepoint { codepoint: 0x1F66F, name: "DOWNWARDS ROCKET", aliases: &[] },
        Codepoint { codepoint: 0x1F670, name: "SCRIPT LIGATURE ET ORNAMENT", aliases: &[] },
        Codepoint { codepoint: 0x1F671, name: "HEAVY SCRIPT LIGATURE ET ORNAMENT", aliases: &[] },
        Codepoint { codepoint: 0x1F672, name: "LIGATURE OPEN ET ORNAMENT", aliases: &[] },
        Codepoint { codepoint: 0x1F673, name: "HEAVY LIGATURE OPEN ET ORNAMENT", aliases: &[] },
        Codepoint { codepoint: 0x1F674, name: "HEAVY AMPERSAND ORNAMENT", aliases: &[] },
        Codepoint { codepoint: 0x1F675, name: "SWASH AMPERSAND ORNAMENT", aliases: &[] },
        Codepoint { codepoint: 0x1F676, name: "SANS-SERIF HEAVY DOUBLE TURNED COMMA QUOTATION MARK ORNAMENT", aliases: &[] },
        Codepoint { codepoint: 0x1F677, name: "SANS-SERIF HEAVY DOUBLE COMMA QUOTATION MARK ORNAMENT", aliases: &[] },
        Codepoint { codepoint: 0x1F678, name: "SANS-SERIF HEAVY LOW DOUBLE COMMA QUOTATION MARK ORNAMENT", aliases: &[] },
        Codepoint { codepoint: 0x1F679, name: "HEAVY INTERROBANG ORNAMENT", aliases: &[] },
        Codepoint { codepoint: 0x1F67A, name: "SANS-SERIF INTERROBANG ORNAMENT", aliases: &[] },
        Codepoint { codepoint: 0x1F67B, name: "HEAVY SANS-SERIF INTERROBANG ORNAMENT", aliases: &[] },
        Codepoint { codepoint: 0x1F67C, name: "VERY HEAVY SOLIDUS", aliases: &[] },
        Codepoint { codepoint: 0x1F67D, name: "VERY HEAVY REVERSE SOLIDUS", aliases: &[] },
        Codepoint { codepoint: 0x1F67E, name: "CHECKER BOARD", aliases: &[] },
        Codepoint { codepoint: 0x1F67F, name: "REVERSE CHECKER BOARD", aliases: &[] },
        Codepoint { codepoint: 0x1F680, name: "ROCKET", aliases: &[] },
        Codepoint { codepoint: 0x1F681, name: "HELICOPTER", aliases: &[] },
        Codepoint { codepoint: 0x1F682, name: "STEAM LOCOMOTIVE", aliases: &[] },
        Codepoint { codepoint: 0x1F683, name: "RAILWAY CAR", aliases: &[] },
        Codepoint { codepoint: 0x1F684, name: "HIGH-SPEED TRAIN", aliases: &[] },
        Codepoint { codepoint: 0x1F685, name: "HIGH-SPEED TRAIN WITH BULLET NOSE", aliases: &[] },
        Codepoint { codepoint: 0x1F686, name: "TRAIN", aliases: &[] },
        Codepoint { codepoint: 0x1F687, name: "METRO", aliases: &[] },
    ];
    assert(v@ =~= codepoint_table_814());
    v
}

pub open spec fn codepoint_table_815() -> Seq<Codepoint> {
    seq![
        Codepoint { codepoint: 0x1F688, name: "LIGHT RAIL", aliases: &[] },
        Codepoint { codepoint: 0x1F689, name: "STATION", aliases: &[] },
        Codepoint { codepoint: 0x1F68A, name: "TRAM", aliases: &[] },
        Codepoint { codepoint: 0x1F68B, name: "TRAM CAR", aliases: &[] },
        Codepoint { codepoint: 0x1F68C, name: "BUS", aliases: &[] },
        Codepoint { codepoint: 0x1F68D, name: "ONCOMING BUS", aliases: &[] },
        Codepoint { codepoint: 0x1F68E, name: "TROLLEYBUS", aliases: &[] },
        Codepoint { codepoint: 0x1F68F, name: "BUS STOP", aliases: &[] },
        Codepoint { codepoint: 0x1F690, name: "MINIBUS", aliases: &[] },
        Codepoint { codepoint: 0x1F691, name: "AMBULANCE", aliases: &[] },
        Codepoint { codepoint: 0x1F692, name: "FIRE ENGINE", aliases: &[] },
        Codepoint { codepoint: 0x1F693, name: "POLICE CAR", aliases: &[] },
        Codepoint { codepoint: 0x1F694, name: "ONCOMING POLICE CAR", aliases: &[] },
        Codepoint { codepoint: 0x1F695, name: "TAXI", aliases: &[] },
        Codepoint { codepoint: 0x1F696, name: "ONCOMING TAXI", aliases: &[] },
        Codepoint { codepoint: 0x1F697, name: "AUTOMOBILE", aliases: &[] },
        Codepoint { codepoint: 0x1F698, name: "ONCOMING AUTOMOBILE", aliases: &[] },
        Codepoint { codepoint: 0x1F699, name: "RECREATIONAL VEHICLE", aliases: &[] },
        Codepoint { codepoint: 0x1F69A, name: "DELIVERY TRUCK", aliases: &[] },
        Codepoint { codepoint: 0x1F69B, name: "ARTICULATED LORRY", aliases: &[] },
        Codepoint { codepoint: 0x1F69C, name: "TRACTOR", aliases: &[] },
        Codepoint { codepoint: 0x1F69D, name: "MONORAIL", aliases: &[] },
        Codepoint { codepoint: 0x1F69E, name: "MOUNTAIN RAILWAY", aliases: &[] },
        Codepoint { codepoint: 0x1F69F, name: "SUSPENSION RAILWAY", aliases: &[] },
        Codepoint { codepoint: 0x1F6A0, name: "MOUNTAIN CABLEWAY", aliases: &[] },
        Codepoint { codepoint: 0x1F6A1, name: "AERIAL TRAMWAY", aliases: &[] },
        Codepoint { codepoint: 0x1F6A2, name: "SHIP", aliases: &[] },
        Codepoint { codepoint: 0x1F6A3, name: "ROWBOAT", aliases: &[] },
        Codepoint { codepoint: 0x1F6A4, name: "SPEEDBOAT", aliases: &[] },
        Codepoint { codepoint: 0x1F6A5, name: "HORIZONTAL TRAFFIC LIGHT", aliases: &[] },
        Codepoint { codepoint: 0x1F6A6, name: "VERTICAL TRAFFIC LIGHT", aliases: &[] },
        Codepoint { codepoint: 0x1F6A7, name: "CONSTRUCTION SIGN", aliases: &[] },
        Codepoint { codepoint: 0x1F6A8, name: "POLICE CARS REVOLVING LIGHT", aliases: &[] },
        Codepoint { codepoint: 0x1F6A9, name: "TRIANGULAR FLAG ON POST", aliases: &[] },
        Codepoint { codepoint: 0x1F6AA, name: "DOOR", aliases: &[] },
        Codepoint { codepoint: 0x1F6AB, name: "NO ENTRY SIGN", aliases: &[] },
        Codepoint { codepoint: 0x1F6AC, name: "SMOKING SYMBOL", aliases: &[] },
        Codepoint { codepoint: 0x1F6AD, name: "NO SMOKING SYMBOL", aliases: &[] },
        Codepoint { codepoint: 0x1F6AE, name: "PUT LITTER IN ITS PLACE SYMBOL", aliases: &[] },
        Codepoint { codepoint: 0x1F6AF, name: "DO NOT LITTER SYMBOL", aliases: &[] },
    ]
}

fn all_codepoints_815() -> (v: Vec<Codepoint>)
    ensures
        v@ == codepoint_table_815(),
{
    let v = vec![
        Codepoint { codepoint: 0x1F688, name: "LIGHT RAIL", aliases: &[] },
        Codepoint { codepoint: 0x1F689, name: "STATION", aliases: &[] },
        Codepoint { codepoint: 0x1F68A, name: "TRAM", aliases: &[] },
        Codepoint { codepoint: 0x1F68B, name: "TRAM CAR", aliases: &[] },
        Codepoint { codepoint: 0x1F68C, name: "BUS", aliases: &[] },
        Codepoint { codepoint: 0x1F68D, name: "ONCOMING BUS", aliases: &[] },
        Codepoint { codepoint: 0x1F68E, name: "TROLLEYBUS", aliases: &[] },
        Codepoint { codepoint: 0x1F68F, name: "BUS STOP", aliases: &[] },
        Codepoint { codepoint: 0x1F690, name: "MINIBUS", aliases: &[] },
        Codepoint { codepoint: 0x1F691, name: "AMBULANCE", aliases: &[] },
        Codepoint { codepoint: 0x1F692, name: "FIRE ENGINE", aliases: &[] },
        Codepoint { codepoint: 0x1F693, name: "POLICE CAR", aliases: &[] },
        Codepoint { codepoint: 0x1F694, name: "ONCOMING POLICE CAR", aliases: &[] },
        Codepoint { codepoint: 0x1F695, name: "TAXI", aliases: &[] },
        Codepoint { codepoint: 0x1F696, name: "ONCOMING TAXI", aliases: &[] },
        Codepoint { codepoint: 0x1F697, name: "AUTOMOBILE", aliases: &[] },
        Codepoint { codepoint: 0x1F698, name: "ONCOMING AUTOMOBILE", aliases: &[] },
        Codepoint { codepoint: 0x1F699, name: "RECREATIONAL VEHICLE", aliases: &[] },
        Codepoint { codepoint: 0x1F69A, name: "DELIVERY TRUCK", aliases: &[] },
        Codepoint { codepoint: 0x1F69B, name: "ARTICULATED LORRY", aliases: &[] },
        Codepoint { codepoint: 0x1F69C, name: "TRACTOR", aliases: &[] },
        Codepoint { codepoint: 0x1F69D, name: "MONORAIL", aliases: &[] },
        Codepoint { codepoint: 0x1F69E, name: "MOUNTAIN RAILWAY", aliases: &[] },
        Codepoint { codepoint: 0x1F69F, name: "SUSPENSION RAILWAY", aliases: &[] },
        Codepoint { codepoint: 0x1F6A0, name: "MOUNTAIN CABLEWAY", aliases: &[] },
        Codepoint { codepoint: 0x1F6A1, name: "AERIAL TRAMWAY", aliases: &[] },
        Codepoint { codepoint: 0x1F6A2, name: "SHIP", aliases: &[] },
        Codepoint { codepoint: 0x1F6A3, name: "ROWBOAT", aliases: &[] },
        Codepoint { codepoint: 0x1F6A4, name: "SPEEDBOAT", aliases: &[] },
        Codepoint { codepoint: 0x1F6A5, name: "HORIZONTAL TRAFFIC LIGHT", aliases: &[] },
        Codepoint { codepoint: 0x1F6A6, name: "VERTICAL TRAFFIC LIGHT", aliases: &[] },
        Codepoint { codepoint: 0x1F6A7, name: "CONSTRUCTION SIGN", aliases: &[] },
        Codepoint { codepoint: 0x1F6A8, name: "POLICE CARS REVOLVING LIGHT", aliases: &[] },
        Codepoint { codepoint: 0x1F6A9, name: "TRIANGULAR FLAG ON POST", aliases: &[] },
        Codepoint { codepoint: 0x1F6AA, name: "DOOR", aliases: &[] },
        Codepoint { codepoint: 0x1F6AB, name: "NO ENTRY SIGN", aliases: &[] },
        Codepoint { codepoint: 0x1F6AC, name: "SMOKING SYMBOL", aliases: &[] },
        Codepoint { codepoint: 0x1F6AD, name: "NO SMOKING SYMBOL", aliases: &[] },
        Codepoint { codepoint: 0x1F6AE, name: "PUT LITTER IN ITS PLACE SYMBOL", aliases: &[] },
        Codepoint { codepoint: 0x1F6AF, name: "DO NOT LITTER SYMBOL", aliases: &[] },
    ];
    assert(v@ =~= codepoint_table_815());
    v
}

pub open spec fn codepoint_table_816() -> Seq<Codepoint> {
    seq![
        Codepoint { codepoint: 0x1F6B0, name: "POTABLE WATER SYMBOL", aliases: &[] },
        Codepoint { codepoint: 0x1F6B1, name: "NON-POTABLE WATER SYMBOL", aliases: &[] },
        Codepoint { codepoint: 0x1F6B2, name: "BICYCLE", aliases: &[] },
        Codepoint { codepoint: 0x1F6B3, name: "NO BICYCLES", aliases: &[] },
        Codepoint { codepoint: 0x1F6B4, name: "BICYCLIST", aliases: &[] },
        Codepoint { codepoint: 0x1F6B5, name: "MOUNTAIN BICYCLIST", aliases: &[] },
        Codepoint { codepoint: 0x1F6B6, name: "PEDESTRIAN", aliases: &[] },
        Codepoint { codepoint: 0x1F6B7, name: "NO PEDESTRIANS", aliases: &[] },
        Codepoint { codepoint: 0x1F6B8, name: "CHILDREN CROSSING", aliases: &[] },
        Codepoint { codepoint: 0x1F6B9, name: "MENS SYMBOL", aliases: &[] },
        Codepoint { codepoint: 0x1F6BA, name: "WOMENS SYMBOL", aliases: &[] },
        Codepoint { codepoint: 0x1F6BB, name: "RESTROOM", aliases: &[] },
        Codepoint { codepoint: 0x1F6BC, name: "BABY SYMBOL", aliases: &[] },
        Codepoint { codepoint: 0x1F6BD, name: "TOILET", aliases: &[] },
        Codepoint { codepoint: 0x1F6BE, name: "WATER CLOSET", aliases: &[] },
        Codepoint { codepoint: 0x1F6BF, name: "SHOWER", aliases: &[] },
        Codepoint { codepoint: 0x1F6C0, name: "BATH", aliases: &[] },
        Codepoint { codepoint: 0x1F6C1, name: "BATHTUB", aliases: &[] },
        Codepoint { codepoint: 0x1F6C2, name: "PASSPORT CONTROL", aliases: &[] },
        Codepoint { codepoint: 0x1F6C3, name: "CUSTOMS", aliases: &[] },
        Codepoint { codepoint: 0x1F6C4, name: "BAGGAGE CLAIM", aliases: &[] },
        Codepoint { codepoint: 0x1F6C5, name: "LEFT LUGGAGE", aliases: &[] },
        Codepoint { codepoint: 0x1F6C6, name: "TRIANGLE WITH ROUNDED CORNERS", aliases: &[] },
        Codepoint { codepoint: 0x1F6C7, name: "PROHIBITED SIGN", aliases: &[] },
        Codepoint { codepoint: 0x1F6C8, name: "CIRCLED INFORMATION SOURCE", aliases: &[] },
        Codepoint { codepoint: 0x1F6C9, name: "BOYS SYMBOL", aliases: &[] },
        Codepoint { codepoint: 0x1F6CA, name: "GIRLS SYMBOL", aliases: &[] },
        Codepoint { codepoint: 0x1F6CB, name: "COUCH AND LAMP", aliases: &[] },
        Codepoint { codepoint: 0x1F6CC, name: "SLEEPING ACCOMMODATION", aliases: &[] },
        Codepoint { codepoint: 0x1F6CD, name: "SHOPPING BAGS", aliases: &[] },
        Codepoint { codepoint: 0x1F6CE, name: "BELLHOP BELL", aliases: &[] },
        Codepoint { codepoint: 0x1F6CF, name: "BED", aliases: &[] },
        Codepoint { codepoint: 0x1F6D0, name: "PLACE OF WORSHIP", aliases: &[] },
        Codepoint { codepoint: 0x1F6D1, name: "OCTAGONAL SIGN", aliases: &[] },
        Codepoint { codepoint: 0x1F6D2, name: "SHOPPING TROLLEY", aliases: &[] },
        Codepoint { codepoint: 0x1F6D3, name: "STUPA", aliases: &[] },
        Codepoint { codepoint: 0x1F6D4, name: "PAGODA", aliases: &[] },
        Codepoint { codepoint: 0x1F6D5, name: "HINDU TEMPLE", aliases: &[] },
        Codepoint { codepoint: 0x1F6D6, name: "HUT", aliases: &[] },
        Codepoint { codepoint: 0x1F6D7, name: "ELEVATOR", aliases: &[] },
    ]
}

fn all_codepoints_816() -> (v: Vec<Codepoint>)
    ensures
        v@ == codepoint_table_816(),
{
    let v = vec![
        Codepoint { codepoint: 0x1F6B0, name: "POTABLE WATER SYMBOL", aliases: &[] },
        Codepoint { codepoint: 0x1F6B1, name: "NON-POTABLE WATER SYMBOL", aliases: &[] },
        Codepoint { codepoint: 0x1F6B2, name: "BICYCLE", aliases: &[] },
        Codepoint { codepoint: 0x1F6B3, name: "NO BICYCLES", aliases: &[] },
        Codepoint { codepoint: 0x1F6B4, name: "BICYCLIST", aliases: &[] },
        Codepoint { codepoint: 0x1F6B5, name: "MOUNTAIN BICYCLIST", aliases: &[] },
        Codepoint { codepoint: 0x1F6B6, name: "PEDESTRIAN", aliases: &[] },
        Codepoint { codepoint: 0x1F6B7, name: "NO PEDESTRIANS", aliases: &[] },
        Codepoint { codepoint: 0x1F6B8, name: "CHILDREN CROSSING", aliases: &[] },
        Codepoint { codepoint: 0x1F6B9, name: "MENS SYMBOL", aliases: &[] },
        Codepoint { codepoint: 0x1F6BA, name: "WOMENS SYMBOL", aliases: &[] },
        Codepoint { codepoint: 0x1F6BB, name: "RESTROOM", aliases: &[] },
        Codepoint { codepoint: 0x1F6BC, name: "BABY SYMBOL", aliases: &[] },
        Codepoint { codepoint: 0x1F6BD, name: "TOILET", aliases: &[] },
        Codepoint { codepoint: 0x1F6BE, name: "WATER CLOSET", aliases: &[] },
        Codepoint { codepoint: 0x1F6BF, name: "SHOWER", aliases: &[] },
        Codepoint { codepoint: 0x1F6C0, name: "BATH", aliases: &[] },
        Codepoint { codepoint: 0x1F6C1, name: "BATHTUB", aliases: &[] },
        Codepoint { codepoint: 0x1F6C2, name: "PASSPORT CONTROL", aliases: &[] },
        Codepoint { codepoint: 0x1F6C3, name: "CUSTOMS", aliases: &[] },
        Codepoint { codepoint: 0x1F6C4, name: "BAGGAGE CLAIM", aliases: &[] },
        Codepoint { codepoint: 0x1F6C5, name: "LEFT LUGGAGE", aliases: &[] },
        Codepoint { codepoint: 0x1F6C6, name: "TRIANGLE WITH ROUNDED CORNERS", aliases: &[] },
        Codepoint { codepoint: 0x1F6C7, name: "PROHIBITED SIGN", aliases: &[] },
        Codepoint { codepoint: 0x1F6C8, name: "CIRCLED INFORMATION SOURCE", aliases: &[] },
        Codepoint { codepoint: 0x1F6C9, name: "BOYS SYMBOL", aliases: &[] },
        Codepoint { codepoint: 0x1F6CA, name: "GIRLS SYMBOL", aliases: &[] },
        Codepoint { codepoint: 0x1F6CB, name: "COUCH AND LAMP", aliases: &[] },
        Codepoint { codepoint: 0x1F6CC, name: "SLEEPING ACCOMMODATION", aliases: &[] },
        Codepoint { codepoint: 0x1F6CD, name: "SHOPPING BAGS", aliases: &[] },
        Codepoint { codepoint: 0x1F6CE, name: "BELLHOP BELL", aliases: &[] },
        Codepoint { codepoint: 0x1F6CF, name: "BED", aliases: &[] },
        Codepoint { codepoint: 0x1F6D0, name: "PLACE OF WORSHIP", aliases: &[] },
        Codepoint { codepoint: 0x1F6D1, name: "OCTAGONAL SIGN", aliases: &[] },
        Codepoint { codepoint: 0x1F6D2, name: "SHOPPING TROLLEY", aliases: &[] },
        Codepoint { codepoint: 0x1F6D3, name: "STUPA", aliases: &[] },
        Codepoint { codepoint: 0x1F6D4, name: "PAGODA", aliases: &[] },
        Codepoint { codepoint: 0x1F6D5, name: "HINDU TEMPLE", aliases: &[] },
        Codepoint { codepoint: 0x1F6D6, name: "HUT", aliases: &[] },
        Codepoint { codepoint: 0x1F6D7, name: "ELEVATOR", aliases: &[] },
    ];
    assert(v@ =~= codepoint_table_816());
    v
}

pub open spec fn codepoint_table_817() -> Seq<Codepoint> {
    seq![
        Codepoint { codepoint: 0x1F6DD, name: "PLAYGROUND SLIDE", aliases: &[] },
        Codepoint { codepoint: 0x1F6DE, name: "WHEEL", aliases: &[] },
        Codepoint { codepoint: 0x1F6DF, name: "RING BUOY", aliases: &[] },
        Codepoint { codepoint: 0x1F6E0, name: "HAMMER AND WRENCH", aliases: &[] },
        Codepoint { codepoint: 0x1F6E1, name: "SHIELD", aliases: &[] },
        Codepoint { codepoint: 0x1F6E2, name: "OIL DRUM", aliases: &[] },
        Codepoint { codepoint: 0x1F6E3, name: "MOTORWAY", aliases: &[] },
        Codepoint { codepoint: 0x1F6E4, name: "RAILWAY TRACK", aliases: &[] },
        Codepoint { codepoint: 0x1F6E5, name: "MOTOR BOAT", aliases: &[] },
        Codepoint { codepoint: 0x1F6E6, name: "UP-POINTING MILITARY AIRPLANE", aliases: &[] },
        Codepoint { codepoint: 0x1F6E7, name: "UP-POINTING AIRPLANE", aliases: &[] },
        Codepoint { codepoint: 0x1F6E8, name: "UP-POINTING SMALL AIRPLANE", aliases: &[] },
        Codepoint { codepoint: 0x1F6E9, name: "SMALL AIRPLANE", aliases: &[] },
        Codepoint { codepoint: 0x1F6EA, name: "NORTHEAST-POINTING AIRPLANE", aliases: &[] },
        Codepoint { codepoint: 0x1F6EB, name: "AIRPLANE DEPARTURE", aliases: &[] },
        Codepoint { codepoint: 0x1F6EC, name: "AIRPLANE ARRIVING", aliases: &[] },
        Codepoint { codepoint: 0x1F6F0, name: "SATELLITE", aliases: &[] },
        Codepoint { codepoint: 0x1F6F1, name: "ONCOMING FIRE ENGINE", aliases: &[] },
        Codepoint { codepoint: 0x1F6F2, name: "DIESEL LOCOMOTIVE", aliases: &[] },
        Codepoint { codepoint: 0x1F6F3, name: "PASSENGER SHIP", aliases: &[] },
        Codepoint { codepoint: 0x1F6F4, name: "SCOOTER", aliases: &[] },
        Codepoint { codepoint: 0x1F6F5, name: "MOTOR SCOOTER", aliases: &[] },
        Codepoint { codepoint: 0x1F6F6, name: "CANOE", aliases: &[] },
        Codepoint { codepoint: 0x1F6F7, name: "SLED", aliases: &[] },
        Codepoint { codepoint: 0x1F6F8, name: "FLYING SAUCER", aliases: &[] },
        Codepoint { codepoint: 0x1F6F9, name: "SKATEBOARD", aliases: &[] },
        Codepoint { codepoint: 0x1F6FA, name: "AUTO RICKSHAW", aliases: &[] },
        Codepoint { codepoint: 0x1F6FB, name: "PICKUP TRUCK", aliases: &[] },
        Codepoint { codepoint: 0x1F6FC, name: "ROLLER SKATE", aliases: &[] },
        Codepoint { codepoint: 0x1F700, name: "ALCHEMICAL SYMBOL FOR QUINTESSENCE", aliases: &[] },
        Codepoint { codepoint: 0x1F701, name: "ALCHEMICAL SYMBOL FOR AIR", aliases: &[] },
        Codepoint { codepoint: 0x1F702, name: "ALCHEMICAL SYMBOL FOR FIRE", aliases: &[] },
        Codepoint { codepoint: 0x1F703, name: "ALCHEMICAL SYMBOL FOR EARTH", aliases: &[] },
        Codepoint { codepoint: 0x1F704, name: "ALCHEMICAL SYMBOL FOR WATER", aliases: &[] },
        Codepoint { codepoint: 0x1F705, name: "ALCHEMICAL SYMBOL FOR AQUAFORTIS", aliases: &[] },
        Codepoint { codepoint: 0x1F706, name: "ALCHEMICAL SYMBOL FOR AQUA REGIA", aliases: &[] },
        Codepoint { codepoint: 0x1F707, name: "ALCHEMICAL SYMBOL FOR AQUA REGIA-2", aliases: &[] },
        Codepoint { codepoint: 0x1F708, name: "ALCHEMICAL SYMBOL FOR AQUA VITAE", aliases: &[] },
        Codepoint { codepoint: 0x1F709, name: "ALCHEMICAL SYMBOL FOR AQUA VITAE-2", aliases: &[] },
        Codepoint { codepoint: 0x1F70A, name: "ALCHEMICAL SYMBOL FOR VINEGAR", aliases: &[] },
    ]
}

fn all_codepoints_817() -> (v: Vec<Codepoint>)
    ensures
        v@ == codepoint_table_817(),
{
    let v = vec![
        Codepoint { codepoint: 0x1F6DD, name: "PLAYGROUND SLIDE", aliases: &[] },
        Codepoint { codepoint: 0x1F6DE, name: "WHEEL", aliases: &[] },
        Codepoint { codepoint: 0x1F6DF, name: "RING BUOY", aliases: &[] },
        Codepoint { codepoint: 0x1F6E0, name: "HAMMER AND WRENCH", aliases: &[] },
        Codepoint { codepoint: 0x1F6E1, name: "SHIELD", aliases: &[] },
        Codepoint { codepoint: 0x1F6E2, name: "OIL DRUM", aliases: &[] },
        Codepoint { codepoint: 0x1F6E3, name: "MOTORWAY", aliases: &[] },
        Codepoint { codepoint: 0x1F6E4, name: "RAILWAY TRACK", aliases: &[] },
        Codepoint { codepoint: 0x1F6E5, name: "MOTOR BOAT", aliases: &[] },
        Codepoint { codepoint: 0x1F6E6, name: "UP-POINTING MILITARY AIRPLANE", aliases: &[] },
        Codepoint { codepoint: 0x1F6E7, name: "UP-POINTING AIRPLANE", aliases: &[] },
        Codepoint { codepoint: 0x1F6E8, name: "UP-POINTING SMALL AIRPLANE", aliases: &[] },
        Codepoint { codepoint: 0x1F6E9, name: "SMALL AIRPLANE", aliases: &[] },
        Codepoint { codepoint: 0x1F6EA, name: "NORTHEAST-POINTING AIRPLANE", aliases: &[] },
        Codepoint { codepoint: 0x1F6EB, name: "AIRPLANE DEPARTURE", aliases: &[] },
        Codepoint { codepoint: 0x1F6EC, name: "AIRPLANE ARRIVING", aliases: &[] },
        Codepoint { codepoint: 0x1F6F0, name: "SATELLITE", aliases: &[] },
        Codepoint { codepoint: 0x1F6F1, name: "ONCOMING FIRE ENGINE", aliases: &[] },
        Codepoint { codepoint: 0x1F6F2, name: "DIESEL LOCOMOTIVE", aliases: &[] },
        Codepoint { codepoint: 0x1F6F3, name: "PASSENGER SHIP", aliases: &[] },
        Codepoint { codepoint: 0x1F6F4, name: "SCOOTER", aliases: &[] },
        Codepoint { codepoint: 0x1F6F5, name: "MOTOR SCOOTER", aliases: &[] },
        Codepoint { codepoint: 0x1F6F6, name: "CANOE", aliases: &[] },
        Codepoint { codepoint: 0x1F6F7, name: "SLED", aliases: &[] },
        Codepoint { codepoint: 0x1F6F8, name: "FLYING SAUCER", aliases: &[] },
        Codepoint { codepoint: 0x1F6F9, name: "SKATEBOARD", aliases: &[] },
        Codepoint { codepoint: 0x1F6FA, name: "AUTO RICKSHAW", aliases: &[] },
        Codepoint { codepoint: 0x1F6FB, name: "PICKUP TRUCK", aliases: &[] },
        Codepoint { codepoint: 0x1F6FC, name: "ROLLER SKATE", aliases: &[] },
        Codepoint { codepoint: 0x1F700, name: "ALCHEMICAL SYMBOL FOR QUINTESSENCE", aliases: &[] },
        Codepoint { codepoint: 0x1F701, name: "ALCHEMICAL SYMBOL FOR AIR", aliases: &[] },
        Codepoint { codepoint: 0x1F702, name: "ALCHEMICAL SYMBOL FOR FIRE", aliases: &[] },
        Codepoint { codepoint: 0x1F703, name: "ALCHEMICAL SYMBOL FOR EARTH", aliases: &[] },
        Codepoint { codepoint: 0x1F704, name: "ALCHEMICAL SYMBOL FOR WATER", aliases: &[] },
        Codepoint { codepoint: 0x1F705, name: "ALCHEMICAL SYMBOL FOR AQUAFORTIS", aliases: &[] },
        Codepoint { codepoint: 0x1F706, name: "ALCHEMICAL SYMBOL FOR AQUA REGIA", aliases: &[] },
        Codepoint { codepoint: 0x1F707, name: "ALCHEMICAL SYMBOL FOR AQUA REGIA-2", aliases: &[] },
        Codepoint { codepoint: 0x1F708, name: "ALCHEMICAL SYMBOL FOR AQUA VITAE", aliases: &[] },
        Codepoint { codepoint: 0x1F709, name: "ALCHEMICAL SYMBOL FOR AQUA VITAE-2", aliases: &[] },
        Codepoint { codepoint: 0x1F70A, name: "ALCHEMICAL SYMBOL FOR VINEGAR", aliases: &[] },
    ];
    assert(v@ =~= codepoint_table_817());
    v
}

pub open spec fn codepoint_table_818() -> Seq<Codepoint> {
    seq![
        Codepoint { codepoint: 0x1F70B, name: "ALCHEMICAL SYMBOL FOR VINEGAR-2", aliases: &[] },
        Codepoint { codepoint: 0x1F70C, name: "ALCHEMICAL SYMBOL FOR VINEGAR-3", aliases: &[] },
        Codepoint { codepoint: 0x1F70D, name: "ALCHEMICAL SYMBOL FOR SULFUR", aliases: &[] },
        Codepoint { codepoint: 0x1F70E, name: "ALCHEMICAL SYMBOL FOR PHILOSOPHERS SULFUR", aliases: &[] },
        Codepoint { codepoint: 0x1F70F, name: "ALCHEMICAL SYMBOL FOR BLACK SULFUR", aliases: &[] },
        Codepoint { codepoint: 0x1F710, name: "ALCHEMICAL SYMBOL FOR MERCURY SUBLIMATE", aliases: &[] },
        Codepoint { codepoint: 0x1F711, name: "ALCHEMICAL SYMBOL FOR MERCURY SUBLIMATE-2", aliases: &[] },
        Codepoint { codepoint: 0x1F712, name: "ALCHEMICAL SYMBOL FOR MERCURY SUBLIMATE-3", aliases: &[] },
        Codepoint { codepoint: 0x1F713, name: "ALCHEMICAL SYMBOL FOR CINNABAR", aliases: &[] },
        Codepoint { codepoint: 0x1F714, name: "ALCHEMICAL SYMBOL FOR SALT", aliases: &[] },
        Codepoint { codepoint: 0x1F715, name: "ALCHEMICAL SYMBOL FOR NITRE", aliases: &[] },
        Codepoint { codepoint: 0x1F716, name: "ALCHEMICAL SYMBOL FOR VITRIOL", aliases: &[] },
        Codepoint { codepoint: 0x1F717, name: "ALCHEMICAL SYMBOL FOR VITRIOL-2", aliases: &[] },
        Codepoint { codepoint: 0x1F718, name: "ALCHEMICAL SYMBOL FOR ROCK SALT", aliases: &[] },
        Codepoint { codepoint: 0x1F719, name: "ALCHEMICAL SYMBOL FOR ROCK SALT-2", aliases: &[] },
        Codepoint { codepoint: 0x1F71A, name: "ALCHEMICAL SYMBOL FOR GOLD", aliases: &[] },
        Codepoint { codepoint: 0x1F71B, name: "ALCHEMICAL SYMBOL FOR SILVER", aliases: &[] },
        Codepoint { codepoint: 0x1F71C, name: "ALCHEMICAL SYMBOL FOR IRON ORE", aliases: &[] },
        Codepoint { codepoint: 0x1F71D, name: "ALCHEMICAL SYMBOL FOR IRON ORE-2", aliases: &[] },
        Codepoint { codepoint: 0x1F71E, name: "ALCHEMICAL SYMBOL FOR CROCUS OF IRON", aliases: &[] },
        Codepoint { codepoint: 0x1F71F, name: "ALCHEMICAL SYMBOL FOR REGULUS OF IRON", aliases: &[] },
        Codepoint { codepoint: 0x1F720, name: "ALCHEMICAL SYMBOL FOR COPPER ORE", aliases: &[] },
        Codepoint { codepoint: 0x1F721, name: "ALCHEMICAL SYMBOL FOR IRON-COPPER ORE", aliases: &[] },
        Codepoint { codepoint: 0x1F722, name: "ALCHEMICAL SYMBOL FOR SUBLIMATE OF COPPER", aliases: &[] },
        Codepoint { codepoint: 0x1F723, name: "ALCHEMICAL SYMBOL FOR CROCUS OF COPPER", aliases: &[] },
        Codepoint { codepoint: 0x1F724, name: "ALCHEMICAL SYMBOL FOR CROCUS OF COPPER-2", aliases: &[] },
        Codepoint { codepoint: 0x1F725, name: "ALCHEMICAL SYMBOL FOR COPPER ANTIMONIATE", aliases: &[] },
        Codepoint { codepoint: 0x1F726, name: "ALCHEMICAL SYMBOL FOR SALT OF COPPER ANTIMONIATE", aliases: &[] },
        Codepoint { codepoint: 0x1F727, name: "ALCHEMICAL SYMBOL FOR SUBLIMATE OF SALT OF COPPER", aliases: &[] },
        Codepoint { codepoint: 0x1F728, name: "ALCHEMICAL SYMBOL FOR VERDIGRIS", aliases: &[] },
        Codepoint { codepoint: 0x1F729, name: "ALCHEMICAL SYMBOL FOR TIN ORE", aliases: &[] },
        Codepoint { codepoint: 0x1F72A, name: "ALCHEMICAL SYMBOL FOR LEAD ORE", aliases: &[] },
        Codepoint { codepoint: 0x1F72B, name: "ALCHEMICAL SYMBOL FOR ANTIMONY ORE", aliases: &[] },
        Codepoint { codepoint: 0x1F72C, name: "ALCHEMICAL SYMBOL FOR SUBLIMATE OF ANTIMONY", aliases: &[] },
        Codepoint { codepoint: 0x1F72D, name: "ALCHEMICAL SYMBOL FOR SALT OF ANTIMONY", aliases: &[] },
        Codepoint { codepoint: 0x1F72E, name: "ALCHEMICAL SYMBOL FOR SUBLIMATE OF SALT OF ANTIMONY", aliases: &[] },
        Codepoint { codepoint: 0x1F72F, name: "ALCHEMICAL SYMBOL FOR VINEGAR OF ANTIMONY", aliases: &[] },
        Codepoint { codepoint: 0x1F730, name: "ALCHEMICAL SYMBOL FOR REGULUS OF ANTIMONY", aliases: &[] },
        Codepoint { codepoint: 0x1F731, name: "ALCHEMICAL SYMBOL FOR REGULUS OF ANTIMONY-2", aliases: &[] },
        Codepoint { codepoint: 0x1F732, name: "ALCHEMICAL SYMBOL FOR REGULUS", aliases: &[] },
    ]
}

fn all_codepoints_818() -> (v: Vec<Codepoint>)
    ensures
        v@ == codepoint_table_818(),
{
    let v = vec![
        Codepoint { codepoint: 0x1F70B, name: "ALCHEMICAL SYMBOL FOR VINEGAR-2", aliases: &[] },
        Codepoint { codepoint: 0x1F70C, name: "ALCHEMICAL SYMBOL FOR VINEGAR-3", aliases: &[] },
        Codepoint { codepoint: 0x1F70D, name: "ALCHEMICAL SYMBOL FOR SULFUR", aliases: &[] },
        Codepoint { codepoint: 0x1F70E, name: "ALCHEMICAL SYMBOL FOR PHILOSOPHERS SULFUR", aliases: &[] },
        Codepoint { codepoint: 0x1F70F, name: "ALCHEMICAL SYMBOL FOR BLACK SULFUR", aliases: &[] },
        Codepoint { codepoint: 0x1F710, name: "ALCHEMICAL SYMBOL FOR MERCURY SUBLIMATE", aliases: &[] },
        Codepoint { codepoint: 0x1F711, name: "ALCHEMICAL SYMBOL FOR MERCURY SUBLIMATE-2", aliases: &[] },
        Codepoint { codepoint: 0x1F712, name: "ALCHEMICAL SYMBOL FOR MERCURY SUBLIMATE-3", aliases: &[] },
        Codepoint { codepoint: 0x1F713, name: "ALCHEMICAL SYMBOL FOR CINNABAR", aliases: &[] },
        Codepoint { codepoint: 0x1F714, name: "ALCHEMICAL SYMBOL FOR SALT", aliases: &[] },
        Codepoint { codepoint: 0x1F715, name: "ALCHEMICAL SYMBOL FOR NITRE", aliases: &[] },
        Codepoint { codepoint: 0x1F716, name: "ALCHEMICAL SYMBOL FOR VITRIOL", aliases: &[] },
        Codepoint { codepoint: 0x1F717, name: "ALCHEMICAL SYMBOL FOR VITRIOL-2", aliases: &[] },
        Codepoint { codepoint: 0x1F718, name: "ALCHEMICAL SYMBOL FOR ROCK SALT", aliases: &[] },
        Codepoint { codepoint: 0x1F719, name: "ALCHEMICAL SYMBOL FOR ROCK SALT-2", aliases: &[] },
        Codepoint { codepoint: 0x1F71A, name: "ALCHEMICAL SYMBOL FOR GOLD", aliases: &[] },
        Codepoint { codepoint: 0x1F71B, name: "ALCHEMICAL SYMBOL FOR SILVER", aliases: &[] },
        Codepoint { codepoint: 0x1F71C, name: "ALCHEMICAL SYMBOL FOR IRON ORE", aliases: &[] },
        Codepoint { codepoint: 0x1F71D, name: "ALCHEMICAL SYMBOL FOR IRON ORE-2", aliases: &[] },
        Codepoint { codepoint: 0x1F71E, name: "ALCHEMICAL SYMBOL FOR CROCUS OF IRON", aliases: &[] },
        Codepoint { codepoint: 0x1F71F, name: "ALCHEMICAL SYMBOL FOR REGULUS OF IRON", aliases: &[] },
        Codepoint { codepoint: 0x1F720, name: "ALCHEMICAL SYMBOL FOR COPPER ORE", aliases: &[] },
        Codepoint { codepoint: 0x1F721, name: "ALCHEMICAL SYMBOL FOR IRON-COPPER ORE", aliases: &[] },
        Codepoint { codepoint: 0x1F722, name: "ALCHEMICAL SYMBOL FOR SUBLIMATE OF COPPER", aliases: &[] },
        Codepoint { codepoint: 0x1F723, name: "ALCHEMICAL SYMBOL FOR CROCUS OF COPPER", aliases: &[] },
        Codepoint { codepoint: 0x1F724, name: "ALCHEMICAL SYMBOL FOR CROCUS OF COPPER-2", aliases: &[] },
        Codepoint { codepoint: 0x1F725, name: "ALCHEMICAL SYMBOL FOR COPPER ANTIMONIATE", aliases: &[] },
        Codepoint { codepoint: 0x1F726, name: "ALCHEMICAL SYMBOL FOR SALT OF COPPER ANTIMONIATE", aliases: &[] },
        Codepoint { codepoint: 0x1F727, name: "ALCHEMICAL SYMBOL FOR SUBLIMATE OF SALT OF COPPER", aliases: &[] },
        Codepoint { codepoint: 0x1F728, name: "ALCHEMICAL SYMBOL FOR VERDIGRIS", aliases: &[] },
        Codepoint { codepoint: 0x1F729, name: "ALCHEMICAL SYMBOL FOR TIN ORE", aliases: &[] },
        Codepoint { codepoint: 0x1F72A, name: "ALCHEMICAL SYMBOL FOR LEAD ORE", aliases: &[] },
        Codepoint { codepoint: 0x1F72B, name: "ALCHEMICAL SYMBOL FOR ANTIMONY ORE", aliases: &[] },
        Codepoint { codepoint: 0x1F72C, name: "ALCHEMICAL SYMBOL FOR SUBLIMATE OF ANTIMONY", aliases: &[] },
        Codepoint { codepoint: 0x1F72D, name: "ALCHEMICAL SYMBOL FOR SALT OF ANTIMONY", aliases: &[] },
        Codepoint { codepoint: 0x1F72E, name: "ALCHEMICAL SYMBOL FOR SUBLIMATE OF SALT OF ANTIMONY", aliases: &[] },
        Codepoint { codepoint: 0x1F72F, name: "ALCHEMICAL SYMBOL FOR VINEGAR OF ANTIMONY", aliases: &[] },
        Codepoint { codepoint: 0x1F730, name: "ALCHEMICAL SYMBOL FOR REGULUS OF ANTIMONY", aliases: &[] },
        Codepoint { codepoint: 0x1F731, name: "ALCHEMICAL SYMBOL FOR REGULUS OF ANTIMONY-2", aliases: &[] },
        Codepoint { codepoint: 0x1F732, name: "ALCHEMICAL SYMBOL FOR REGULUS", aliases: &[] },
    ];
    assert(v@ =~= codepoint_table_818());
    v
}

pub open spec fn codepoint_table_819() -> Seq<Codepoint> {
    seq![
        Codepoint { codepoint: 0x1F733, name: "ALCHEMICAL SYMBOL FOR REGULUS-2", aliases: &[] },
        Codepoint { codepoint: 0x1F734, name: "ALCHEMICAL SYMBOL FOR REGULUS-3", aliases: &[] },
        Codepoint { codepoint: 0x1F735, name: "ALCHEMICAL SYMBOL FOR REGULUS-4", aliases: &[] },
        Codepoint { codepoint: 0x1F736, name: "ALCHEMICAL SYMBOL FOR ALKALI", aliases: &[] },
        Codepoint { codepoint: 0x1F737, name: "ALCHEMICAL SYMBOL FOR ALKALI-2", aliases: &[] },
        Codepoint { codepoint: 0x1F738, name: "ALCHEMICAL SYMBOL FOR MARCASITE", aliases: &[] },
        Codepoint { codepoint: 0x1F739, name: "ALCHEMICAL SYMBOL FOR SAL-AMMONIAC", aliases: &[] },
        Codepoint { codepoint: 0x1F73A, name: "ALCHEMICAL SYMBOL FOR ARSENIC", aliases: &[] },
        Codepoint { codepoint: 0x1F73B, name: "ALCHEMICAL SYMBOL FOR REALGAR", aliases: &[] },
        Codepoint { codepoint: 0x1F73C, name: "ALCHEMICAL SYMBOL FOR REALGAR-2", aliases: &[] },
        Codepoint { codepoint: 0x1F73D, name: "ALCHEMICAL SYMBOL FOR AURIPIGMENT", aliases: &[] },
        Codepoint { codepoint: 0x1F73E, name: "ALCHEMICAL SYMBOL FOR BISMUTH ORE", aliases: &[] },
        Codepoint { codepoint: 0x1F73F, name: "ALCHEMICAL SYMBOL FOR TARTAR", aliases: &[] },
        Codepoint { codepoint: 0x1F740, name: "ALCHEMICAL SYMBOL FOR TARTAR-2", aliases: &[] },
        Codepoint { codepoint: 0x1F741, name: "ALCHEMICAL SYMBOL FOR QUICK LIME", aliases: &[] },
        Codepoint { codepoint: 0x1F742, name: "ALCHEMICAL SYMBOL FOR BORAX", aliases: &[] },
        Codepoint { codepoint: 0x1F743, name: "ALCHEMICAL SYMBOL FOR BORAX-2", aliases: &[] },
        Codepoint { codepoint: 0x1F744, name: "ALCHEMICAL SYMBOL FOR BORAX-3", aliases: &[] },
        Codepoint { codepoint: 0x1F745, name: "ALCHEMICAL SYMBOL FOR ALUM", aliases: &[] },
        Codepoint { codepoint: 0x1F746, name: "ALCHEMICAL SYMBOL FOR OIL", aliases: &[] },
        Codepoint { codepoint: 0x1F747, name: "ALCHEMICAL SYMBOL FOR SPIRIT", aliases: &[] },
        Codepoint { codepoint: 0x1F748, name: "ALCHEMICAL SYMBOL FOR TINCTURE", aliases: &[] },
        Codepoint { codepoint: 0x1F749, name: "ALCHEMICAL SYMBOL FOR GUM", aliases: &[] },
        Codepoint { codepoint: 0x1F74A, name: "ALCHEMICAL SYMBOL FOR WAX", aliases: &[] },
        Codepoint { codepoint: 0x1F74B, name: "ALCHEMICAL SYMBOL FOR POWDER", aliases: &[] },
        Codepoint { codepoint: 0x1F74C, name: "ALCHEMICAL SYMBOL FOR CALX", aliases: &[] },
        Codepoint { codepoint: 0x1F74D, name: "ALCHEMICAL SYMBOL FOR TUTTY", aliases: &[] },
        Codepoint { codepoint: 0x1F74E, name: "ALCHEMICAL SYMBOL FOR CAPUT MORTUUM", aliases: &[] },
        Codepoint { codepoint: 0x1F74F, name: "ALCHEMICAL SYMBOL FOR SCEPTER OF JOVE", aliases: &[] },
        Codepoint { codepoint: 0x1F750, name: "ALCHEMICAL SYMBOL FOR CADUCEUS", aliases: &[] },
        Codepoint { codepoint: 0x1F751, name: "ALCHEMICAL SYMBOL FOR TRIDENT", aliases: &[] },
        Codepoint { codepoint: 0x1F752, name: "ALCHEMICAL SYMBOL FOR STARRED TRIDENT", aliases: &[] },
        Codepoint { codepoint: 0x1F753, name: "ALCHEMICAL SYMBOL FOR LODESTONE", aliases: &[] },
        Codepoint { codepoint: 0x1F754, name: "ALCHEMICAL SYMBOL FOR SOAP", aliases: &[] },
        Codepoint { codepoint: 0x1F755, name: "ALCHEMICAL SYMBOL FOR URINE", aliases: &[] },
        Codepoint { codepoint: 0x1F756, name: "ALCHEMICAL SYMBOL FOR HORSE DUNG", aliases: &[] },
        Codepoint { codepoint: 0x1F757, name: "ALCHEMICAL SYMBOL FOR ASHES", aliases: &[] },
        Codepoint { codepoint: 0x1F758, name: "ALCHEMICAL SYMBOL FOR POT ASHES", aliases: &[] },
        Codepoint { codepoint: 0x1F759, name: "ALCHEMICAL SYMBOL FOR BRICK", aliases: &[] },
        Codepoint { codepoint: 0x1F75A, name: "ALCHEMICAL SYMBOL FOR POWDERED BRICK", aliases: &[] },
    ]
}

fn all_codepoints_819() -> (v: Vec<Codepoint>)
    ensures
        v@ == codepoint_table_819(),
{
    let v = vec![
        Codepoint { codepoint: 0x1F733, name: "ALCHEMICAL SYMBOL FOR REGULUS-2", aliases: &[] },
        Codepoint { codepoint: 0x1F734, name: "ALCHEMICAL SYMBOL FOR REGULUS-3", aliases: &[] },
        Codepoint { codepoint: 0x1F735, name: "ALCHEMICAL SYMBOL FOR REGULUS-4", aliases: &[] },
        Codepoint { codepoint: 0x1F736, name: "ALCHEMICAL SYMBOL FOR ALKALI", aliases: &[] },
        Codepoint { codepoint: 0x1F737, name: "ALCHEMICAL SYMBOL FOR ALKALI-2", aliases: &[] },
        Codepoint { codepoint: 0x1F738, name: "ALCHEMICAL SYMBOL FOR MARCASITE", aliases: &[] },
        Codepoint { codepoint: 0x1F739, name: "ALCHEMICAL SYMBOL FOR SAL-AMMONIAC", aliases: &[] },
        Codepoint { codepoint: 0x1F73A, name: "ALCHEMICAL SYMBOL FOR ARSENIC", aliases: &[] },
        Codepoint { codepoint: 0x1F73B, name: "ALCHEMICAL SYMBOL FOR REALGAR", aliases: &[] },
        Codepoint { codepoint: 0x1F73C, name: "ALCHEMICAL SYMBOL FOR REALGAR-2", aliases: &[] },
        Codepoint { codepoint: 0x1F73D, name: "ALCHEMICAL SYMBOL FOR AURIPIGMENT", aliases: &[] },
        Codepoint { codepoint: 0x1F73E, name: "ALCHEMICAL SYMBOL FOR BISMUTH ORE", aliases: &[] },
        Codepoint { codepoint: 0x1F73F, name: "ALCHEMICAL SYMBOL FOR TARTAR", aliases: &[] },
        Codepoint { codepoint: 0x1F740, name: "ALCHEMICAL SYMBOL FOR TARTAR-2", aliases: &[] },
        Codepoint { codepoint: 0x1F741, name: "ALCHEMICAL SYMBOL FOR QUICK LIME", aliases: &[] },
        Codepoint { codepoint: 0x1F742, name: "ALCHEMICAL SYMBOL FOR BORAX", aliases: &[] },
        Codepoint { codepoint: 0x1F743, name: "ALCHEMICAL SYMBOL FOR BORAX-2", aliases: &[] },
        Codepoint { codepoint: 0x1F744, name: "ALCHEMICAL SYMBOL FOR BORAX-3", aliases: &[] },
        Codepoint { codepoint: 0x1F745, name: "ALCHEMICAL SYMBOL FOR ALUM", aliases: &[] },
        Codepoint { codepoint: 0x1F746, name: "ALCHEMICAL SYMBOL FOR OIL", aliases: &[] },
        Codepoint { codepoint: 0x1F747, name: "ALCHEMICAL SYMBOL FOR SPIRIT", aliases: &[] },
        Codepoint { codepoint: 0x1F748, name: "ALCHEMICAL SYMBOL FOR TINCTURE", aliases: &[] },
        Codepoint { codepoint: 0x1F749, name: "ALCHEMICAL SYMBOL FOR GUM", aliases: &[] },
        Codepoint { codepoint: 0x1F74A, name: "ALCHEMICAL SYMBOL FOR WAX", aliases: &[] },
        Codepoint { codepoint: 0x1F74B, name: "ALCHEMICAL SYMBOL FOR POWDER", aliases: &[] },
        Codepoint { codepoint: 0x1F74C, name: "ALCHEMICAL SYMBOL FOR CALX", aliases: &[] },
        Codepoint { codepoint: 0x1F74D, name: "ALCHEMICAL SYMBOL FOR TUTTY", aliases: &[] },
        Codepoint { codepoint: 0x1F74E, name: "ALCHEMICAL SYMBOL FOR CAPUT MORTUUM", aliases: &[] },
        Codepoint { codepoint: 0x1F74F, name: "ALCHEMICAL SYMBOL FOR SCEPTER OF JOVE", aliases: &[] },
        Codepoint { codepoint: 0x1F750, name: "ALCHEMICAL SYMBOL FOR CADUCEUS", aliases: &[] },
        Codepoint { codepoint: 0x1F751, name: "ALCHEMICAL SYMBOL FOR TRIDENT", aliases: &[] },
        Codepoint { codepoint: 0x1F752, name: "ALCHEMICAL SYMBOL FOR STARRED TRIDENT", aliases: &[] },
        Codepoint { codepoint: 0x1F753, name: "ALCHEMICAL SYMBOL FOR LODESTONE", aliases: &[] },
        Codepoint { codepoint: 0x1F754, name: "ALCHEMICAL SYMBOL FOR SOAP", aliases: &[] },
        Codepoint { codepoint: 0x1F755, name: "ALCHEMICAL SYMBOL FOR URINE", aliases: &[] },
        Codepoint { codepoint: 0x1F756, name: "ALCHEMICAL SYMBOL FOR HORSE DUNG", aliases: &[] },
        Codepoint { codepoint: 0x1F757, name: "ALCHEMICAL SYMBOL FOR ASHES", aliases: &[] },
        Codepoint { codepoint: 0x1F758, name: "ALCHEMICAL SYMBOL FOR POT ASHES", aliases: &[] },
        Codepoint { codepoint: 0x1F759, name: "ALCHEMICAL SYMBOL FOR BRICK", aliases: &[] },
        Codepoint { codepoint: 0x1F75A, name: "ALCHEMICAL SYMBOL FOR POWDERED BRICK", aliases: &[] },
    ];
    assert(v@ =~= codepoint_table_819());
    v
}

/// The entries from position 32000 of the table, 800 at most.
pub open spec fn codepoint_group_40() -> Seq<Codepoint> {
    codepoint_table_800() + codepoint_table_801() + codepoint_table_802() + codepoint_table_803() + codepoint_table_804() + codepoint_table_805() + codepoint_table_806() + codepoint_table_807() + codepoint_table_808() + codepoint_table_809() + codepoint_table_810() + codepoint_table_811() + codepoint_table_812() + codepoint_table_813() + codepoint_table_814() + codepoint_table_815() + codepoint_table_816() + codepoint_table_817() + codepoint_table_818() + codepoint_table_819()
}

pub fn all_codepoints_group_40() -> (v: Vec<Codepoint>)
    ensures
        v@ == codepoint_group_40(),
{
    let mut v = all_codepoints_800();
    let mut part = all_codepoints_801();
    v.append(&mut part);
    let mut part = all_codepoints_802();
    v.append(&mut part);
    let mut part = all_codepoints_803();
    v.append(&mut part);
    let mut part = all_codepoints_804();
    v.append(&mut part);
    let mut part = all_codepoints_805();
    v.append(&mut part);
    let mut part = all_codepoints_806();
    v.append(&mut part);
    let mut part = all_codepoints_807();
    v.append(&mut part);
    let mut part = all_codepoints_808();
    v.append(&mut part);
    let mut part = all_codepoints_809();
    v.append(&mut part);
    let mut part = all_codepoints_810();
    v.append(&mut part);
    let mut part = all_codepoints_811();
    v.append(&mut part);
    let mut part = all_codepoints_812();
    v.append(&mut part);
    let mut part = all_codepoints_813();
    v.append(&mut part);
    let mut part = all_codepoints_814();
    v.append(&mut part);
    let mut part = all_codepoints_815();
    v.append(&mut part);
    let mut part = all_codepoints_816();
    v.append(&mut part);
    let mut part = all_codepoints_817();
    v.append(&mut part);
    let mut part = all_codepoints_818();
    v.append(&mut part);
    let mut part = all_codepoints_819();
    v.append(&mut part);
    v
}

pub open spec fn codepoint_table_820() -> Seq<Codepoint> {
    seq![
        Codepoint { codepoint: 0x1F75B, name: "ALCHEMICAL SYMBOL FOR AMALGAM", aliases: &[] },
        Codepoint { codepoint: 0x1F75C, name: "ALCHEMICAL SYMBOL FOR STRATUM SUPER STRATUM", aliases: &[] },
        Codepoint { codepoint: 0x1F75D, name: "ALCHEMICAL SYMBOL FOR STRATUM SUPER STRATUM-2", aliases: &[] },
        Codepoint { codepoint: 0x1F75E, name: "ALCHEMICAL SYMBOL FOR SUBLIMATION", aliases: &[] },
        Codepoint { codepoint: 0x1F75F, name: "ALCHEMICAL SYMBOL FOR PRECIPITATE", aliases: &[] },
        Codepoint { codepoint: 0x1F760, name: "ALCHEMICAL SYMBOL FOR DISTILL", aliases: &[] },
        Codepoint { codepoint: 0x1F761, name: "ALCHEMICAL SYMBOL FOR DISSOLVE", aliases: &[] },
        Codepoint { codepoint: 0x1F762, name: "ALCHEMICAL SYMBOL FOR DISSOLVE-2", aliases: &[] },
        Codepoint { codepoint: 0x1F763, name: "ALCHEMICAL SYMBOL FOR PURIFY", aliases: &[] },
        Codepoint { codepoint: 0x1F764, name: "ALCHEMICAL SYMBOL FOR PUTREFACTION", aliases: &[] },
        Codepoint { codepoint: 0x1F765, name: "ALCHEMICAL SYMBOL FOR CRUCIBLE", aliases: &[] },
        Codepoint { codepoint: 0x1F766, name: "ALCHEMICAL SYMBOL FOR CRUCIBLE-2", aliases: &[] },
        Codepoint { codepoint: 0x1F767, name: "ALCHEMICAL SYMBOL FOR CRUCIBLE-3", aliases: &[] },
        Codepoint { codepoint: 0x1F768, name: "ALCHEMICAL SYMBOL FOR CRUCIBLE-4", aliases: &[] },
        Codepoint { codepoint: 0x1F769, name: "ALCHEMICAL SYMBOL FOR CRUCIBLE-5", aliases: &[] },
        Codepoint { codepoint: 0x1F76A, name: "ALCHEMICAL SYMBOL FOR ALEMBIC", aliases: &[] },
        Codepoint { codepoint: 0x1F76B, name: "ALCHEMICAL SYMBOL FOR BATH OF MARY", aliases: &[] },
        Codepoint { codepoint: 0x1F76C, name: "ALCHEMICAL SYMBOL FOR BATH OF VAPOURS", aliases: &[] },
        Codepoint { codepoint: 0x1F76D, name: "ALCHEMICAL SYMBOL FOR RETORT", aliases: &[] },
        Codepoint { codepoint: 0x1F76E, name: "ALCHEMICAL SYMBOL FOR HOUR", aliases: &[] },
        Codepoint { codepoint: 0x1F76F, name: "ALCHEMICAL SYMBOL FOR NIGHT", aliases: &[] },
        Codepoint { codepoint: 0x1F770, name: "ALCHEMICAL SYMBOL FOR DAY-NIGHT", aliases: &[] },
        Codepoint { codepoint: 0x1F771, name: "ALCHEMICAL SYMBOL FOR MONTH", aliases: &[] },
        Codepoint { codepoint: 0x1F772, name: "ALCHEMICAL SYMBOL FOR HALF DRAM", aliases: &[] },
        Codepoint { codepoint: 0x1F773, name: "ALCHEMICAL SYMBOL FOR HALF OUNCE", aliases: &[] },
        Codepoint { codepoint: 0x1F780, name: "BLACK LEFT-POINTING ISOSCELES RIGHT TRIANGLE", aliases: &[] },
        Codepoint { codepoint: 0x1F781, name: "BLACK UP-POINTING ISOSCELES RIGHT TRIANGLE", aliases: &[] },
        Codepoint { codepoint: 0x1F782, name: "BLACK RIGHT-POINTING ISOSCELES RIGHT TRIANGLE", aliases: &[] },
        Codepoint { codepoint: 0x1F783, name: "BLACK DOWN-POINTING ISOSCELES RIGHT TRIANGLE", aliases: &[] },
        Codepoint { codepoint: 0x1F784, name: "BLACK SLIGHTLY SMALL CIRCLE", aliases: &[] },
        Codepoint { codepoint: 0x1F785, name: "MEDIUM BOLD WHITE CIRCLE", aliases: &[] },
        Codepoint { codepoint: 0x1F786, name: "BOLD WHITE CIRCLE", aliases: &[] },
        Codepoint { codepoint: 0x1F787, name: "HEAVY WHITE CIRCLE", aliases: &[] },
        Codepoint { codepoint: 0x1F788, name: "VERY HEAVY WHITE CIRCLE", aliases: &[] },
        Codepoint { codepoint: 0x1F789, name: "EXTREMELY HEAVY WHITE CIRCLE", aliases: &[] },
        Codepoint { codepoint: 0x1F78A, name: "WHITE CIRCLE CONTAINING BLACK SMALL CIRCLE", aliases: &[] },
        Codepoint { codepoint: 0x1F78B, name: "ROUND TARGET", aliases: &[] },
        Codepoint { codepoint: 0x1F78C, name: "BLACK TINY SQUARE", aliases: &[] },
        Codepoint { codepoint: 0x1F78D, name: "BLACK SLIGHTLY SMALL SQUARE", aliases: &[] },
        Codepoint { codepoint: 0x1F78E, name: "LIGHT WHITE SQUARE", aliases: &[] },
    ]
}

fn all_codepoints_820() -> (v: Vec<Codepoint>)
    ensures
        v@ == codepoint_table_820(),
{
    let v = vec![
        Codepoint { codepoint: 0x1F75B, name: "ALCHEMICAL SYMBOL FOR AMALGAM", aliases: &[] },
        Codepoint { codepoint: 0x1F75C, name: "ALCHEMICAL SYMBOL FOR STRATUM SUPER STRATUM", aliases: &[] },
        Codepoint { codepoint: 0x1F75D, name: "ALCHEMICAL SYMBOL FOR STRATUM SUPER STRATUM-2", aliases: &[] },
        Codepoint { codepoint: 0x1F75E, name: "ALCHEMICAL SYMBOL FOR SUBLIMATION", aliases: &[] },
        Codepoint { codepoint: 0x1F75F, name: "ALCHEMICAL SYMBOL FOR PRECIPITATE", aliases: &[] },
        Codepoint { codepoint: 0x1F760, name: "ALCHEMICAL SYMBOL FOR DISTILL", aliases: &[] },
        Codepoint { codepoint: 0x1F761, name: "ALCHEMICAL SYMBOL FOR DISSOLVE", aliases: &[] },
        Codepoint { codepoint: 0x1F762, name: "ALCHEMICAL SYMBOL FOR DISSOLVE-2", aliases: &[] },
        Codepoint { codepoint: 0x1F763, name: "ALCHEMICAL SYMBOL FOR PURIFY", aliases: &[] },
        Codepoint { codepoint: 0x1F764, name: "ALCHEMICAL SYMBOL FOR PUTREFACTION", aliases: &[] },
        Codepoint { codepoint: 0x1F765, name: "ALCHEMICAL SYMBOL FOR CRUCIBLE", aliases: &[] },
        Codepoint { codepoint: 0x1F766, name: "ALCHEMICAL SYMBOL FOR CRUCIBLE-2", aliases: &[] },
        Codepoint { codepoint: 0x1F767, name: "ALCHEMICAL SYMBOL FOR CRUCIBLE-3", aliases: &[] },
        Codepoint { codepoint: 0x1F768, name: "ALCHEMICAL SYMBOL FOR CRUCIBLE-4", aliases: &[] },
        Codepoint { codepoint: 0x1F769, name: "ALCHEMICAL SYMBOL FOR CRUCIBLE-5", aliases: &[] },
        Codepoint { codepoint: 0x1F76A, name: "ALCHEMICAL SYMBOL FOR ALEMBIC", aliases: &[] },
        Codepoint { codepoint: 0x1F76B, name: "ALCHEMICAL SYMBOL FOR BATH OF MARY", aliases: &[] },
        Codepoint { codepoint: 0x1F76C, name: "ALCHEMICAL SYMBOL FOR BATH OF VAPOURS", aliases: &[] },
        Codepoint { codepoint: 0x1F76D, name: "ALCHEMICAL SYMBOL FOR RETORT", aliases: &[] },
        Codepoint { codepoint: 0x1F76E, name: "ALCHEMICAL SYMBOL FOR HOUR", aliases: &[] },
        Codepoint { codepoint: 0x1F76F, name: "ALCHEMICAL SYMBOL FOR NIGHT", aliases: &[] },
        Codepoint { codepoint: 0x1F770, name: "ALCHEMICAL SYMBOL FOR DAY-NIGHT", aliases: &[] },
        Codepoint { codepoint: 0x1F771, name: "ALCHEMICAL SYMBOL FOR MONTH", aliases: &[] },
        Codepoint { codepoint: 0x1F772, name: "ALCHEMICAL SYMBOL FOR HALF DRAM", aliases: &[] },
        Codepoint { codepoint: 0x1F773, name: "ALCHEMICAL SYMBOL FOR HALF OUNCE", aliases: &[] },
        Codepoint { codepoint: 0x1F780, name: "BLACK LEFT-POINTING ISOSCELES RIGHT TRIANGLE", aliases: &[] },
        Codepoint { codepoint: 0x1F781, name: "BLACK UP-POINTING ISOSCELES RIGHT TRIANGLE", aliases: &[] },
        Codepoint { codepoint: 0x1F782, name: "BLACK RIGHT-POINTING ISOSCELES RIGHT TRIANGLE", aliases: &[] },
        Codepoint { codepoint: 0x1F783, name: "BLACK DOWN-POINTING ISOSCELES RIGHT TRIANGLE", aliases: &[] },
        Codepoint { codepoint: 0x1F784, name: "BLACK SLIGHTLY SMALL CIRCLE", aliases: &[] },
        Codepoint { codepoint: 0x1F785, name: "MEDIUM BOLD WHITE CIRCLE", aliases: &[] },
        Codepoint { codepoint: 0x1F786, name: "BOLD WHITE CIRCLE", aliases: &[] },
        Codepoint { codepoint: 0x1F787, name: "HEAVY WHITE CIRCLE", aliases: &[] },
        Codepoint { codepoint: 0x1F788, name: "VERY HEAVY WHITE CIRCLE", aliases: &[] },
        Codepoint { codepoint: 0x1F789, name: "EXTREMELY HEAVY WHITE CIRCLE", aliases: &[] },
        Codepoint { codepoint: 0x1F78A, name: "WHITE CIRCLE CONTAINING BLACK SMALL CIRCLE", aliases: &[] },
        Codepoint { codepoint: 0x1F78B, name: "ROUND TARGET", aliases: &[] },
        Codepoint { codepoint: 0x1F78C, name: "BLACK TINY SQUARE", aliases: &[] },
        Codepoint { codepoint: 0x1F78D, name: "BLACK SLIGHTLY SMALL SQUARE", aliases: &[] },
        Codepoint { codepoint: 0x1F78E, name: "LIGHT WHITE SQUARE", aliases: &[] },
    ];
    assert(v@ =~= codepoint_table_820());
    v
}

pub open spec fn codepoint_table_821() -> Seq<Codepoint> {
    seq![
        Codepoint { codepoint: 0x1F78F, name: "MEDIUM WHITE SQUARE", aliases: &[] },
        Codepoint { codepoint: 0x1F790, name: "BOLD WHITE SQUARE", aliases: &[] },
        Codepoint { codepoint: 0x1F791, name: "HEAVY WHITE SQUARE", aliases: &[] },
        Codepoint { codepoint: 0x1F792, name: "VERY HEAVY WHITE SQUARE", aliases: &[] },
        Codepoint { codepoint: 0x1F793, name: "EXTREMELY HEAVY WHITE SQUARE", aliases: &[] },
        Codepoint { codepoint: 0x1F794, name: "WHITE SQUARE CONTAINING BLACK VERY SMALL SQUARE", aliases: &[] },
        Codepoint { codepoint: 0x1F795, name: "WHITE SQUARE CONTAINING BLACK MEDIUM SQUARE", aliases: &[] },
        Codepoint { codepoint: 0x1F796, name: "SQUARE TARGET", aliases: &[] },
        Codepoint { codepoint: 0x1F797, name: "BLACK TINY DIAMOND", aliases: &[] },
        Codepoint { codepoint: 0x1F798, name: "BLACK VERY SMALL DIAMOND", aliases: &[] },
        Codepoint { codepoint: 0x1F799, name: "BLACK MEDIUM SMALL DIAMOND", aliases: &[] },
        Codepoint { codepoint: 0x1F79A, name: "WHITE DIAMOND CONTAINING BLACK VERY SMALL DIAMOND", aliases: &[] },
        Codepoint { codepoint: 0x1F79B, name: "WHITE DIAMOND CONTAINING BLACK MEDIUM DIAMOND", aliases: &[] },
        Codepoint { codepoint: 0x1F79C, name: "DIAMOND TARGET", aliases: &[] },
        Codepoint { codepoint: 0x1F79D, name: "BLACK TINY LOZENGE", aliases: &[] },
        Codepoint { codepoint: 0x1F79E, name: "BLACK VERY SMALL LOZENGE", aliases: &[] },
        Codepoint { codepoint: 0x1F79F, name: "BLACK MEDIUM SMALL LOZENGE", aliases: &[] },
        Codepoint { codepoint: 0x1F7A0, name: "WHITE LOZENGE CONTAINING BLACK SMALL LOZENGE", aliases: &[] },
        Codepoint { codepoint: 0x1F7A1, name: "THIN GREEK CROSS", aliases: &[] },
        Codepoint { codepoint: 0x1F7A2, name: "LIGHT GREEK CROSS", aliases: &[] },
        Codepoint { codepoint: 0x1F7A3, name: "MEDIUM GREEK CROSS", aliases: &[] },
        Codepoint { codepoint: 0x1F7A4, name: "BOLD GREEK CROSS", aliases: &[] },
        Codepoint { codepoint: 0x1F7A5, name: "VERY BOLD GREEK CROSS", aliases: &[] },
        Codepoint { codepoint: 0x1F7A6, name: "VERY HEAVY GREEK CROSS", aliases: &[] },
        Codepoint { codepoint: 0x1F7A7, name: "EXTREMELY HEAVY GREEK CROSS", aliases: &[] },
        Codepoint { codepoint: 0x1F7A8, name: "THIN SALTIRE", aliases: &[] },
        Codepoint { codepoint: 0x1F7A9, name: "LIGHT SALTIRE", aliases: &[] },
        Codepoint { codepoint: 0x1F7AA, name: "MEDIUM SALTIRE", aliases: &[] },
        Codepoint { codepoint: 0x1F7AB, name: "BOLD SALTIRE", aliases: &[] },
        Codepoint { codepoint: 0x1F7AC, name: "HEAVY SALTIRE", aliases: &[] },
        Codepoint { codepoint: 0x1F7AD, name: "VERY HEAVY SALTIRE", aliases: &[] },
        Codepoint { codepoint: 0x1F7AE, name: "EXTREMELY HEAVY SALTIRE", aliases: &[] },
        Codepoint { codepoint: 0x1F7AF, name: "LIGHT FIVE SPOKED ASTERISK", aliases: &[] },
        Codepoint { codepoint: 0x1F7B0, name: "MEDIUM FIVE SPOKED ASTERISK", aliases: &[] },
        Codepoint { codepoint: 0x1F7B1, name: "BOLD FIVE SPOKED ASTERISK", aliases: &[] },
        Codepoint { codepoint: 0x1F7B2, name: "HEAVY FIVE SPOKED ASTERISK", aliases: &[] },
        Codepoint { codepoint: 0x1F7B3, name: "VERY HEAVY FIVE SPOKED ASTERISK", aliases: &[] },
        Codepoint { codepoint: 0x1F7B4, name: "EXTREMELY HEAVY FIVE SPOKED ASTERISK", aliases: &[] },
        Codepoint { codepoint: 0x1F7B5, name: "LIGHT SIX SPOKED ASTERISK", aliases: &[] },
        Codepoint { codepoint: 0x1F7B6, name: "MEDIUM SIX SPOKED ASTERISK", aliases: &[] },
    ]
}

fn all_codepoints_821() -> (v: Vec<Codepoint>)
    ensures
        v@ == codepoint_table_821(),
{
    let v = vec![
        Codepoint { codepoint: 0x1F78F, name: "MEDIUM WHITE SQUARE", aliases: &[] },
        Codepoint { codepoint: 0x1F790, name: "BOLD WHITE SQUARE", aliases: &[] },
        Codepoint { codepoint: 0x1F791, name: "HEAVY WHITE SQUARE", aliases: &[] },
        Codepoint { codepoint: 0x1F792, name: "VERY HEAVY WHITE SQUARE", aliases: &[] },
        Codepoint { codepoint: 0x1F793, name: "EXTREMELY HEAVY WHITE SQUARE", aliases: &[] },
        Codepoint { codepoint: 0x1F794, name: "WHITE SQUARE CONTAINING BLACK VERY SMALL SQUARE", aliases: &[] },
        Codepoint { codepoint: 0x1F795, name: "WHITE SQUARE CONTAINING BLACK MEDIUM SQUARE", aliases: &[] },
        Codepoint { codepoint: 0x1F796, name: "SQUARE TARGET", aliases: &[] },
        Codepoint { codepoint: 0x1F797, name: "BLACK TINY DIAMOND", aliases: &[] },
        Codepoint { codepoint: 0x1F798, name: "BLACK VERY SMALL DIAMOND", aliases: &[] },
        Codepoint { codepoint: 0x1F799, name: "BLACK MEDIUM SMALL DIAMOND", aliases: &[] },
        Codepoint { codepoint: 0x1F79A, name: "WHITE DIAMOND CONTAINING BLACK VERY SMALL DIAMOND", aliases: &[] },
        Codepoint { codepoint: 0x1F79B, name: "WHITE DIAMOND CONTAINING BLACK MEDIUM DIAMOND", aliases: &[] },
        Codepoint { codepoint: 0x1F79C, name: "DIAMOND TARGET", aliases: &[] },
        Codepoint { codepoint: 0x1F79D, name: "BLACK TINY LOZENGE", aliases: &[] },
        Codepoint { codepoint: 0x1F79E, name: "BLACK VERY SMALL LOZENGE", aliases: &[] },
        Codepoint { codepoint: 0x1F79F, name: "BLACK MEDIUM SMALL LOZENGE", aliases: &[] },
        Codepoint { codepoint: 0x1F7A0, name: "WHITE LOZENGE CONTAINING BLACK SMALL LOZENGE", aliases: &[] },
        Codepoint { codepoint: 0x1F7A1, name: "THIN GREEK CROSS", aliases: &[] },
        Codepoint { codepoint: 0x1F7A2, name: "LIGHT GREEK CROSS", aliases: &[] },
        Codepoint { codepoint: 0x1F7A3, name: "MEDIUM GREEK CROSS", aliases: &[] },
        Codepoint { codepoint: 0x1F7A4, name: "BOLD GREEK CROSS", aliases: &[] },
        Codepoint { codepoint: 0x1F7A5, name: "VERY BOLD GREEK CROSS", aliases: &[] },
        Codepoint { codepoint: 0x1F7A6, name: "VERY HEAVY GREEK CROSS", aliases: &[] },
        Codepoint { codepoint: 0x1F7A7, name: "EXTREMELY HEAVY GREEK CROSS", aliases: &[] },
        Codepoint { codepoint: 0x1F7A8, name: "THIN SALTIRE", aliases: &[] },
        Codepoint { codepoint: 0x1F7A9, name: "LIGHT SALTIRE", aliases: &[] },
        Codepoint { codepoint: 0x1F7AA, name: "MEDIUM SALTIRE", aliases: &[] },
        Codepoint { codepoint: 0x1F7AB, name: "BOLD SALTIRE", aliases: &[] },
        Codepoint { codepoint: 0x1F7AC, name: "HEAVY SALTIRE", aliases: &[] },
        Codepoint { codepoint: 0x1F7AD, name: "VERY HEAVY SALTIRE", aliases: &[] },
        Codepoint { codepoint: 0x1F7AE, name: "EXTREMELY HEAVY SALTIRE", aliases: &[] },
        Codepoint { codepoint: 0x1F7AF, name: "LIGHT FIVE SPOKED ASTERISK", aliases: &[] },
        Codepoint { codepoint: 0x1F7B0, name: "MEDIUM FIVE SPOKED ASTERISK", aliases: &[] },
        Codepoint { codepoint: 0x1F7B1, name: "BOLD FIVE SPOKED ASTERISK", aliases: &[] },
        Codepoint { codepoint: 0x1F7B2, name: "HEAVY FIVE SPOKED ASTERISK", aliases: &[] },
        Codepoint { codepoint: 0x1F7B3, name: "VERY HEAVY FIVE SPOKED ASTERISK", aliases: &[] },
        Codepoint { codepoint: 0x1F7B4, name: "EXTREMELY HEAVY FIVE SPOKED ASTERISK", aliases: &[] },
        Codepoint { codepoint: 0x1F7B5, name: "LIGHT SIX SPOKED ASTERISK", aliases: &[] },
        Codepoint { codepoint: 0x1F7B6, name: "MEDIUM SIX SPOKED ASTERISK", aliases: &[] },
    ];
    assert(v@ =~= codepoint_table_821());
    v
}

pub open spec fn codepoint_table_822() -> Seq<Codepoint> {
    seq![
        Codepoint { codepoint: 0x1F7B7, name: "BOLD SIX SPOKED ASTERISK", aliases: &[] },
        Codepoint { codepoint: 0x1F7B8, name: "HEAVY SIX SPOKED ASTERISK", aliases: &[] },
        Codepoint { codepoint: 0x1F7B9, name: "VERY HEAVY SIX SPOKED ASTERISK", aliases: &[] },
        Codepoint { codepoint: 0x1F7BA, name: "EXTREMELY HEAVY SIX SPOKED ASTERISK", aliases: &[] },
        Codepoint { codepoint: 0x1F7BB, name: "LIGHT EIGHT SPOKED ASTERISK", aliases: &[] },
        Codepoint { codepoint: 0x1F7BC, name: "MEDIUM EIGHT SPOKED ASTERISK", aliases: &[] },
        Codepoint { codepoint: 0x1F7BD, name: "BOLD EIGHT SPOKED ASTERISK", aliases: &[] },
        Codepoint { codepoint: 0x1F7BE, name: "HEAVY EIGHT SPOKED ASTERISK", aliases: &[] },
        Codepoint { codepoint: 0x1F7BF, name: "VERY HEAVY EIGHT SPOKED ASTERISK", aliases: &[] },
        Codepoint { codepoint: 0x1F7C0, name: "LIGHT THREE POINTED BLACK STAR", aliases: &[] },
        Codepoint { codepoint: 0x1F7C1, name: "MEDIUM THREE POINTED BLACK STAR", aliases: &[] },
        Codepoint { codepoint: 0x1F7C2, name: "THREE POINTED BLACK STAR", aliases: &[] },
        Codepoint { codepoint: 0x1F7C3, name: "MEDIUM THREE POINTED PINWHEEL STAR", aliases: &[] },
        Codepoint { codepoint: 0x1F7C4, name: "LIGHT FOUR POINTED BLACK STAR", aliases: &[] },
        Codepoint { codepoint: 0x1F7C5, name: "MEDIUM FOUR POINTED BLACK STAR", aliases: &[] },
        Codepoint { codepoint: 0x1F7C6, name: "FOUR POINTED BLACK STAR", aliases: &[] },
        Codepoint { codepoint: 0x1F7C7, name: "MEDIUM FOUR POINTED PINWHEEL STAR", aliases: &[] },
        Codepoint { codepoint: 0x1F7C8, name: "REVERSE LIGHT FOUR POINTED PINWHEEL STAR", aliases: &[] },
        Codepoint { codepoint: 0x1F7C9, name: "LIGHT FIVE POINTED BLACK STAR", aliases: &[] },
        Codepoint { codepoint: 0x1F7CA, name: "HEAVY FIVE POINTED BLACK STAR", aliases: &[] },
        Codepoint { codepoint: 0x1F7CB, name: "MEDIUM SIX POINTED BLACK STAR", aliases: &[] },
        Codepoint { codepoint: 0x1F7CC, name: "HEAVY SIX POINTED BLACK STAR", aliases: &[] },
        Codepoint { codepoint: 0x1F7CD, name: "SIX POINTED PINWHEEL STAR", aliases: &[] },
        Codepoint { codepoint: 0x1F7CE, name: "MEDIUM EIGHT POINTED BLACK STAR", aliases: &[] },
        Codepoint { codepoint: 0x1F7CF, name: "HEAVY EIGHT POINTED BLACK STAR", aliases: &[] },
        Codepoint { codepoint: 0x1F7D0, name: "VERY HEAVY EIGHT POINTED BLACK STAR", aliases: &[] },
        Codepoint { codepoint: 0x1F7D1, name: "HEAVY EIGHT POINTED PINWHEEL STAR", aliases: &[] },
        Codepoint { codepoint: 0x1F7D2, name: "LIGHT TWELVE POINTED BLACK STAR", aliases: &[] },
        Codepoint { codepoint: 0x1F7D3, name: "HEAVY TWELVE POINTED BLACK STAR", aliases: &[] },
        Codepoint { codepoint: 0x1F7D4, name: "HEAVY TWELVE POINTED PINWHEEL STAR", aliases: &[] },
        Codepoint { codepoint: 0x1F7D5, name: "CIRCLED TRIANGLE", aliases: &[] },
        Codepoint { codepoint: 0x1F7D6, name: "NEGATIVE CIRCLED TRIANGLE", aliases: &[] },
        Codepoint { codepoint: 0x1F7D7, name: "CIRCLED SQUARE", aliases: &[] },
        Codepoint { codepoint: 0x1F7D8, name: "NEGATIVE CIRCLED SQUARE", aliases: &[] },
        Codepoint { codepoint: 0x1F7E0, name: "LARGE ORANGE CIRCLE", aliases: &[] },
        Codepoint { codepoint: 0x1F7E1, name: "LARGE YELLOW CIRCLE", aliases: &[] },
        Codepoint { codepoint: 0x1F7E2, name: "LARGE GREEN CIRCLE", aliases: &[] },
        Codepoint { codepoint: 0x1F7E3, name: "LARGE PURPLE CIRCLE", aliases: &[] },
        Codepoint { codepoint: 0x1F7E4, name: "LARGE BROWN CIRCLE", aliases: &[] },
        Codepoint { codepoint: 0x1F7E5, name: "LARGE RED SQUARE", aliases: &[] },
    ]
}

fn all_codepoints_822() -> (v: Vec<Codepoint>)
    ensures
        v@ == codepoint_table_822(),
{
    let v = vec![
        Codepoint { codepoint: 0x1F7B7, name: "BOLD SIX SPOKED ASTERISK", aliases: &[] },
        Codepoint { codepoint: 0x1F7B8, name: "HEAVY SIX SPOKED ASTERISK", aliases: &[] },
        Codepoint { codepoint: 0x1F7B9, name: "VERY HEAVY SIX SPOKED ASTERISK", aliases: &[] },
        Codepoint { codepoint: 0x1F7BA, name: "EXTREMELY HEAVY SIX SPOKED ASTERISK", aliases: &[] },
        Codepoint { codepoint: 0x1F7BB, name: "LIGHT EIGHT SPOKED ASTERISK", aliases: &[] },
        Codepoint { codepoint: 0x1F7BC, name: "MEDIUM EIGHT SPOKED ASTERISK", aliases: &[] },
        Codepoint { codepoint: 0x1F7BD, name: "BOLD EIGHT SPOKED ASTERISK", aliases: &[] },
        Codepoint { codepoint: 0x1F7BE, name: "HEAVY EIGHT SPOKED ASTERISK", aliases: &[] },
        Codepoint { codepoint: 0x1F7BF, name: "VERY HEAVY EIGHT SPOKED ASTERISK", aliases: &[] },
        Codepoint { codepoint: 0x1F7C0, name: "LIGHT THREE POINTED BLACK STAR", aliases: &[] },
        Codepoint { codepoint: 0x1F7C1, name: "MEDIUM THREE POINTED BLACK STAR", aliases: &[] },
        Codepoint { codepoint: 0x1F7C2, name: "THREE POINTED BLACK STAR", aliases: &[] },
        Codepoint { codepoint: 0x1F7C3, name: "MEDIUM THREE POINTED PINWHEEL STAR", aliases: &[] },
        Codepoint { codepoint: 0x1F7C4, name: "LIGHT FOUR POINTED BLACK STAR", aliases: &[] },
        Codepoint { codepoint: 0x1F7C5, name: "MEDIUM FOUR POINTED BLACK STAR", aliases: &[] },
        Codepoint { codepoint: 0x1F7C6, name: "FOUR POINTED BLACK STAR", aliases: &[] },
        Codepoint { codepoint: 0x1F7C7, name: "MEDIUM FOUR POINTED PINWHEEL STAR", aliases: &[] },
        Codepoint { codepoint: 0x1F7C8, name: "REVERSE LIGHT FOUR POINTED PINWHEEL STAR", aliases: &[] },
        Codepoint { codepoint: 0x1F7C9, name: "LIGHT FIVE POINTED BLACK STAR", aliases: &[] },
        Codepoint { codepoint: 0x1F7CA, name: "HEAVY FIVE POINTED BLACK STAR", aliases: &[] },
        Codepoint { codepoint: 0x1F7CB, name: "MEDIUM SIX POINTED BLACK STAR", aliases: &[] },
        Codepoint { codepoint: 0x1F7CC, name: "HEAVY SIX POINTED BLACK STAR", aliases: &[] },
        Codepoint { codepoint: 0x1F7CD, name: "SIX POINTED PINWHEEL STAR", aliases: &[] },
        Codepoint { codepoint: 0x1F7CE, name: "MEDIUM EIGHT POINTED BLACK STAR", aliases: &[] },
        Codepoint { codepoint: 0x1F7CF, name: "HEAVY EIGHT POINTED BLACK STAR", aliases: &[] },
        Codepoint { codepoint: 0x1F7D0, name: "VERY HEAVY EIGHT POINTED BLACK STAR", aliases: &[] },
        Codepoint { codepoint: 0x1F7D1, name: "HEAVY EIGHT POINTED PINWHEEL STAR", aliases: &[] },
        Codepoint { codepoint: 0x1F7D2, name: "LIGHT TWELVE POINTED BLACK STAR", aliases: &[] },
        Codepoint { codepoint: 0x1F7D3, name: "HEAVY TWELVE POINTED BLACK STAR", aliases: &[] },
        Codepoint { codepoint: 0x1F7D4, name: "HEAVY TWELVE POINTED PINWHEEL STAR", aliases: &[] },
        Codepoint { codepoint: 0x1F7D5, name: "CIRCLED TRIANGLE", aliases: &[] },
        Codepoint { codepoint: 0x1F7D6, name: "NEGATIVE CIRCLED TRIANGLE", aliases: &[] },
        Codepoint { codepoint: 0x1F7D7, name: "CIRCLED SQUARE", aliases: &[] },
        Codepoint { codepoint: 0x1F7D8, name: "NEGATIVE CIRCLED SQUARE", aliases: &[] },
        Codepoint { codepoint: 0x1F7E0, name: "LARGE ORANGE CIRCLE", aliases: &[] },
        Codepoint { codepoint: 0x1F7E1, name: "LARGE YELLOW CIRCLE", aliases: &[] },
        Codepoint { codepoint: 0x1F7E2, name: "LARGE GREEN CIRCLE", aliases: &[] },
        Codepoint { codepoint: 0x1F7E3, name: "LARGE PURPLE CIRCLE", aliases: &[] },
        Codepoint { codepoint: 0x1F7E4, name: "LARGE BROWN CIRCLE", aliases: &[] },
        Codepoint { codepoint: 0x1F7E5, name: "LARGE RED SQUARE", aliases: &[] },
    ];
    assert(v@ =~= codepoint_table_822());
    v
}

pub open spec fn codepoint_table_823() -> Seq<Codepoint> {
    seq![
        Codepoint { codepoint: 0x1F7E6, name: "LARGE BLUE SQUARE", aliases: &[] },
        Codepoint { codepoint: 0x1F7E7, name: "LARGE ORANGE SQUARE", aliases: &[] },
        Codepoint { codepoint: 0x1F7E8, name: "LARGE YELLOW SQUARE", aliases: &[] },
        Codepoint { codepoint: 0x1F7E9, name: "LARGE GREEN SQUARE", aliases: &[] },
        Codepoint { codepoint: 0x1F7EA, name: "LARGE PURPLE SQUARE", aliases: &[] },
        Codepoint { codepoint: 0x1F7EB, name: "LARGE BROWN SQUARE", aliases: &[] },
        Codepoint { codepoint: 0x1F7F0, name: "HEAVY EQUALS SIGN", aliases: &[] },
        Codepoint { codepoint: 0x1F800, name: "LEFTWARDS ARROW WITH SMALL TRIANGLE ARROWHEAD", aliases: &[] },
        Codepoint { codepoint: 0x1F801, name: "UPWARDS ARROW WITH SMALL TRIANGLE ARROWHEAD", aliases: &[] },
        Codepoint { codepoint: 0x1F802, name: "RIGHTWARDS ARROW WITH SMALL TRIANGLE ARROWHEAD", aliases: &[] },
        Codepoint { codepoint: 0x1F803, name: "DOWNWARDS ARROW WITH SMALL TRIANGLE ARROWHEAD", aliases: &[] },
        Codepoint { codepoint: 0x1F804, name: "LEFTWARDS ARROW WITH MEDIUM TRIANGLE ARROWHEAD", aliases: &[] },
        Codepoint { codepoint: 0x1F805, name: "UPWARDS ARROW WITH MEDIUM TRIANGLE ARROWHEAD", aliases: &[] },
        Codepoint { codepoint: 0x1F806, name: "RIGHTWARDS ARROW WITH MEDIUM TRIANGLE ARROWHEAD", aliases: &[] },
        Codepoint { codepoint: 0x1F807, name: "DOWNWARDS ARROW WITH MEDIUM TRIANGLE ARROWHEAD", aliases: &[] },
        Codepoint { codepoint: 0x1F808, name: "LEFTWARDS ARROW WITH LARGE TRIANGLE ARROWHEAD", aliases: &[] },
        Codepoint { codepoint: 0x1F809, name: "UPWARDS ARROW WITH LARGE TRIANGLE ARROWHEAD", aliases: &[] },
        Codepoint { codepoint: 0x1F80A, name: "RIGHTWARDS ARROW WITH LARGE TRIANGLE ARROWHEAD", aliases: &[] },
        Codepoint { codepoint: 0x1F80B, name: "DOWNWARDS ARROW WITH LARGE TRIANGLE ARROWHEAD", aliases: &[] },
        Codepoint { codepoint: 0x1F810, name: "LEFTWARDS ARROW WITH SMALL EQUILATERAL ARROWHEAD", aliases: &[] },
        Codepoint { codepoint: 0x1F811, name: "UPWARDS ARROW WITH SMALL EQUILATERAL ARROWHEAD", aliases: &[] },
        Codepoint { codepoint: 0x1F812, name: "RIGHTWARDS ARROW WITH SMALL EQUILATERAL ARROWHEAD", aliases: &[] },
        Codepoint { codepoint: 0x1F813, name: "DOWNWARDS ARROW WITH SMALL EQUILATERAL ARROWHEAD", aliases: &[] },
        Codepoint { codepoint: 0x1F814, name: "LEFTWARDS ARROW WITH EQUILATERAL ARROWHEAD", aliases: &[] },
        Codepoint { codepoint: 0x1F815, name: "UPWARDS ARROW WITH EQUILATERAL ARROWHEAD", aliases: &[] },
        Codepoint { codepoint: 0x1F816, name: "RIGHTWARDS ARROW WITH EQUILATERAL ARROWHEAD", aliases: &[] },
        Codepoint { codepoint: 0x1F817, name: "DOWNWARDS ARROW WITH EQUILATERAL ARROWHEAD", aliases: &[] },
        Codepoint { codepoint: 0x1F818, name: "HEAVY LEFTWARDS ARROW WITH EQUILATERAL ARROWHEAD", aliases: &[] },
        Codepoint { codepoint: 0x1F819, name: "HEAVY UPWARDS ARROW WITH EQUILATERAL ARROWHEAD", aliases: &[] },
        Codepoint { codepoint: 0x1F81A, name: "HEAVY RIGHTWARDS ARROW WITH EQUILATERAL ARROWHEAD", aliases: &[] },
        Codepoint { codepoint: 0x1F81B, name: "HEAVY DOWNWARDS ARROW WITH EQUILATERAL ARROWHEAD", aliases: &[] },
        Codepoint { codepoint: 0x1F81C, name: "HEAVY LEFTWARDS ARROW WITH LARGE EQUILATERAL ARROWHEAD", aliases: &[] },
        Codepoint { codepoint: 0x1F81D, name: "HEAVY UPWARDS ARROW WITH LARGE EQUILATERAL ARROWHEAD", aliases: &[] },
        Codepoint { codepoint: 0x1F81E, name: "HEAVY RIGHTWARDS ARROW WITH LARGE EQUILATERAL ARROWHEAD", aliases: &[] },
        Codepoint { codepoint: 0x1F81F, name: "HEAVY DOWNWARDS ARROW WITH LARGE EQUILATERAL ARROWHEAD", aliases: &[] },
        Codepoint { codepoint: 0x1F820, name: "LEFTWARDS TRIANGLE-HEADED ARROW WITH NARROW SHAFT", aliases: &[] },
        Codepoint { codepoint: 0x1F821, name: "UPWARDS TRIANGLE-HEADED ARROW WITH NARROW SHAFT", aliases: &[] },
        Codepoint { codepoint: 0x1F822, name: "RIGHTWARDS TRIANGLE-HEADED ARROW WITH NARROW SHAFT", aliases: &[] },
        Codepoint { codepoint: 0x1F823, name: "DOWNWARDS TRIANGLE-HEADED ARROW WITH NARROW SHAFT", aliases: &[] },
        Codepoint { codepoint: 0x1F824, name: "LEFTWARDS TRIANGLE-HEADED ARROW WITH MEDIUM SHAFT", aliases: &[] },
    ]
}

fn all_codepoints_823() -> (v: Vec<Codepoint>)
    ensures
        v@ == codepoint_table_823(),
{
    let v = vec![
        Codepoint { codepoint: 0x1F7E6, name: "LARGE BLUE SQUARE", aliases: &[] },
        Codepoint { codepoint: 0x1F7E7, name: "LARGE ORANGE SQUARE", aliases: &[] },
        Codepoint { codepoint: 0x1F7E8, name: "LARGE YELLOW SQUARE", aliases: &[] },
        Codepoint { codepoint: 0x1F7E9, name: "LARGE GREEN SQUARE", aliases: &[] },
        Codepoint { codepoint: 0x1F7EA, name: "LARGE PURPLE SQUARE", aliases: &[] },
        Codepoint { codepoint: 0x1F7EB, name: "LARGE BROWN SQUARE", aliases: &[] },
        Codepoint { codepoint: 0x1F7F0, name: "HEAVY EQUALS SIGN", aliases: &[] },
        Codepoint { codepoint: 0x1F800, name: "LEFTWARDS ARROW WITH SMALL TRIANGLE ARROWHEAD", aliases: &[] },
        Codepoint { codepoint: 0x1F801, name: "UPWARDS ARROW WITH SMALL TRIANGLE ARROWHEAD", aliases: &[] },
        Codepoint { codepoint: 0x1F802, name: "RIGHTWARDS ARROW WITH SMALL TRIANGLE ARROWHEAD", aliases: &[] },
        Codepoint { codepoint: 0x1F803, name: "DOWNWARDS ARROW WITH SMALL TRIANGLE ARROWHEAD", aliases: &[] },
        Codepoint { codepoint: 0x1F804, name: "LEFTWARDS ARROW WITH MEDIUM TRIANGLE ARROWHEAD", aliases: &[] },
        Codepoint { codepoint: 0x1F805, name: "UPWARDS ARROW WITH MEDIUM TRIANGLE ARROWHEAD", aliases: &[] },
        Codepoint { codepoint: 0x1F806, name: "RIGHTWARDS ARROW WITH MEDIUM TRIANGLE ARROWHEAD", aliases: &[] },
        Codepoint { codepoint: 0x1F807, name: "DOWNWARDS ARROW WITH MEDIUM TRIANGLE ARROWHEAD", aliases: &[] },
        Codepoint { codepoint: 0x1F808, name: "LEFTWARDS ARROW WITH LARGE TRIANGLE ARROWHEAD", aliases: &[] },
        Codepoint { codepoint: 0x1F809, name: "UPWARDS ARROW WITH LARGE TRIANGLE ARROWHEAD", aliases: &[] },
        Codepoint { codepoint: 0x1F80A, name: "RIGHTWARDS ARROW WITH LARGE TRIANGLE ARROWHEAD", aliases: &[] },
        Codepoint { codepoint: 0x1F80B, name: "DOWNWARDS ARROW WITH LARGE TRIANGLE ARROWHEAD", aliases: &[] },
        Codepoint { codepoint: 0x1F810, name: "LEFTWARDS ARROW WITH SMALL EQUILATERAL ARROWHEAD", aliases: &[] },
        Codepoint { codepoint: 0x1F811, name: "UPWARDS ARROW WITH SMALL EQUILATERAL ARROWHEAD", aliases: &[] },
        Codepoint { codepoint: 0x1F812, name: "RIGHTWARDS ARROW WITH SMALL EQUILATERAL ARROWHEAD", aliases: &[] },
        Codepoint { codepoint: 0x1F813, name: "DOWNWARDS ARROW WITH SMALL EQUILATERAL ARROWHEAD", aliases: &[] },
        Codepoint { codepoint: 0x1F814, name: "LEFTWARDS ARROW WITH EQUILATERAL ARROWHEAD", aliases: &[] },
        Codepoint { codepoint: 0x1F815, name: "UPWARDS ARROW WITH EQUILATERAL ARROWHEAD", aliases: &[] },
        Codepoint { codepoint: 0x1F816, name: "RIGHTWARDS ARROW WITH EQUILATERAL ARROWHEAD", aliases: &[] },
        Codepoint { codepoint: 0x1F817, name: "DOWNWARDS ARROW WITH EQUILATERAL ARROWHEAD", aliases: &[] },
        Codepoint { codepoint: 0x1F818, name: "HEAVY LEFTWARDS ARROW WITH EQUILATERAL ARROWHEAD", aliases: &[] },
        Codepoint { codepoint: 0x1F819, name: "HEAVY UPWARDS ARROW WITH EQUILATERAL ARROWHEAD", aliases: &[] },
        Codepoint { codepoint: 0x1F81A, name: "HEAVY RIGHTWARDS ARROW WITH EQUILATERAL ARROWHEAD", aliases: &[] },
        Codepoint { codepoint: 0x1F81B, name: "HEAVY DOWNWARDS ARROW WITH EQUILATERAL ARROWHEAD", aliases: &[] },
        Codepoint { codepoint: 0x1F81C, name: "HEAVY LEFTWARDS ARROW WITH LARGE EQUILATERAL ARROWHEAD", aliases: &[] },
        Codepoint { codepoint: 0x1F81D, name: "HEAVY UPWARDS ARROW WITH LARGE EQUILATERAL ARROWHEAD", aliases: &[] },
        Codepoint { codepoint: 0x1F81E, name: "HEAVY RIGHTWARDS ARROW WITH LARGE EQUILATERAL ARROWHEAD", aliases: &[] },
        Codepoint { codepoint: 0x1F81F, name: "HEAVY DOWNWARDS ARROW WITH LARGE EQUILATERAL ARROWHEAD", aliases: &[] },
        Codepoint { codepoint: 0x1F820, name: "LEFTWARDS TRIANGLE-HEADED ARROW WITH NARROW SHAFT", aliases: &[] },
        Codepoint { codepoint: 0x1F821, name: "UPWARDS TRIANGLE-HEADED ARROW WITH NARROW SHAFT", aliases: &[] },
        Codepoint { codepoint: 0x1F822, name: "RIGHTWARDS TRIANGLE-HEADED ARROW WITH NARROW SHAFT", aliases: &[] },
        Codepoint { codepoint: 0x1F823, name: "DOWNWARDS TRIANGLE-HEADED ARROW WITH NARROW SHAFT", aliases: &[] },
        Codepoint { codepoint: 0x1F824, name: "LEFTWARDS TRIANGLE-HEADED ARROW WITH MEDIUM SHAFT", aliases: &[] },
    ];
    assert(v@ =~= codepoint_table_823());
    v
}

pub open spec fn codepoint_table_824() -> Seq<Codepoint> {
    seq![
        Codepoint { codepoint: 0x1F825, name: "UPWARDS TRIANGLE-HEADED ARROW WITH MEDIUM SHAFT", aliases: &[] },
        Codepoint { codepoint: 0x1F826, name: "RIGHTWARDS TRIANGLE-HEADED ARROW WITH MEDIUM SHAFT", aliases: &[] },
        Codepoint { codepoint: 0x1F827, name: "DOWNWARDS TRIANGLE-HEADED ARROW WITH MEDIUM SHAFT", aliases: &[] },
        Codepoint { codepoint: 0x1F828, name: "LEFTWARDS TRIANGLE-HEADED ARROW WITH BOLD SHAFT", aliases: &[] },
        Codepoint { codepoint: 0x1F829, name: "UPWARDS TRIANGLE-HEADED ARROW WITH BOLD SHAFT", aliases: &[] },
        Codepoint { codepoint: 0x1F82A, name: "RIGHTWARDS TRIANGLE-HEADED ARROW WITH BOLD SHAFT", aliases: &[] },
        Codepoint { codepoint: 0x1F82B, name: "DOWNWARDS TRIANGLE-HEADED ARROW WITH BOLD SHAFT", aliases: &[] },
        Codepoint { codepoint: 0x1F82C, name: "LEFTWARDS TRIANGLE-HEADED ARROW WITH HEAVY SHAFT", aliases: &[] },
        Codepoint { codepoint: 0x1F82D, name: "UPWARDS TRIANGLE-HEADED ARROW WITH HEAVY SHAFT", aliases: &[] },
        Codepoint { codepoint: 0x1F82E, name: "RIGHTWARDS TRIANGLE-HEADED ARROW WITH HEAVY SHAFT", aliases: &[] },
        Codepoint { codepoint: 0x1F82F, name: "DOWNWARDS TRIANGLE-HEADED ARROW WITH HEAVY SHAFT", aliases: &[] },
        Codepoint { codepoint: 0x1F830, name: "LEFTWARDS TRIANGLE-HEADED ARROW WITH VERY HEAVY SHAFT", aliases: &[] },
        Codepoint { codepoint: 0x1F831, name: "UPWARDS TRIANGLE-HEADED ARROW WITH VERY HEAVY SHAFT", aliases: &[] },
        Codepoint { codepoint: 0x1F832, name: "RIGHTWARDS TRIANGLE-HEADED ARROW WITH VERY HEAVY SHAFT", aliases: &[] },
        Codepoint { codepoint: 0x1F833, name: "DOWNWARDS TRIANGLE-HEADED ARROW WITH VERY HEAVY SHAFT", aliases: &[] },
        Codepoint { codepoint: 0x1F834, name: "LEFTWARDS FINGER-POST ARROW", aliases: &[] },
        Codepoint { codepoint: 0x1F835, name: "UPWARDS FINGER-POST ARROW", aliases: &[] },
        Codepoint { codepoint: 0x1F836, name: "RIGHTWARDS FINGER-POST ARROW", aliases: &[] },
        Codepoint { codepoint: 0x1F837, name: "DOWNWARDS FINGER-POST ARROW", aliases: &[] },
        Codepoint { codepoint: 0x1F838, name: "LEFTWARDS SQUARED ARROW", aliases: &[] },
        Codepoint { codepoint: 0x1F839, name: "UPWARDS SQUARED ARROW", aliases: &[] },
        Codepoint { codepoint: 0x1F83A, name: "RIGHTWARDS SQUARED ARROW", aliases: &[] },
        Codepoint { codepoint: 0x1F83B, name: "DOWNWARDS SQUARED ARROW", aliases: &[] },
        Codepoint { codepoint: 0x1F83C, name: "LEFTWARDS COMPRESSED ARROW", aliases: &[] },
        Codepoint { codepoint: 0x1F83D, name: "UPWARDS COMPRESSED ARROW", aliases: &[] },
        Codepoint { codepoint: 0x1F83E, name: "RIGHTWARDS COMPRESSED ARROW", aliases: &[] },
        Codepoint { codepoint: 0x1F83F, name: "DOWNWARDS COMPRESSED ARROW", aliases: &[] },
        Codepoint { codepoint: 0x1F840, name: "LEFTWARDS HEAVY COMPRESSED ARROW", aliases: &[] },
        Codepoint { codepoint: 0x1F841, name: "UPWARDS HEAVY COMPRESSED ARROW", aliases: &[] },
        Codepoint { codepoint: 0x1F842, name: "RIGHTWARDS HEAVY COMPRESSED ARROW", aliases: &[] },
        Codepoint { codepoint: 0x1F843, name: "DOWNWARDS HEAVY COMPRESSED ARROW", aliases: &[] },
        Codepoint { codepoint: 0x1F844, name: "LEFTWARDS HEAVY ARROW", aliases: &[] },
        Codepoint { codepoint: 0x1F845, name: "UPWARDS HEAVY ARROW", aliases: &[] },
        Codepoint { codepoint: 0x1F846, name: "RIGHTWARDS HEAVY ARROW", aliases: &[] },
        Codepoint { codepoint: 0x1F847, name: "DOWNWARDS HEAVY ARROW", aliases: &[] },
        Codepoint { codepoint: 0x1F850, name: "LEFTWARDS SANS-SERIF ARROW", aliases: &[] },
        Codepoint { codepoint: 0x1F851, name: "UPWARDS SANS-SERIF ARROW", aliases: &[] },
        Codepoint { codepoint: 0x1F852, name: "RIGHTWARDS SANS-SERIF ARROW", aliases: &[] },
        Codepoint { codepoint: 0x1F853, name: "DOWNWARDS SANS-SERIF ARROW", aliases: &[] },
        Codepoint { codepoint: 0x1F854, name: "NORTH WEST SANS-SERIF ARROW", aliases: &[] },
    ]
}

fn all_codepoints_824() -> (v: Vec<Codepoint>)
    ensures
        v@ == codepoint_table_824(),
{
    let v = vec![
        Codepoint { codepoint: 0x1F825, name: "UPWARDS TRIANGLE-HEADED ARROW WITH MEDIUM SHAFT", aliases: &[] },
        Codepoint { codepoint: 0x1F826, name: "RIGHTWARDS TRIANGLE-HEADED ARROW WITH MEDIUM SHAFT", aliases: &[] },
        Codepoint { codepoint: 0x1F827, name: "DOWNWARDS TRIANGLE-HEADED ARROW WITH MEDIUM SHAFT", aliases: &[] },
        Codepoint { codepoint: 0x1F828, name: "LEFTWARDS TRIANGLE-HEADED ARROW WITH BOLD SHAFT", aliases: &[] },
        Codepoint { codepoint: 0x1F829, name: "UPWARDS TRIANGLE-HEADED ARROW WITH BOLD SHAFT", aliases: &[] },
        Codepoint { codepoint: 0x1F82A, name: "RIGHTWARDS TRIANGLE-HEADED ARROW WITH BOLD SHAFT", aliases: &[] },
        Codepoint { codepoint: 0x1F82B, name: "DOWNWARDS TRIANGLE-HEADED ARROW WITH BOLD SHAFT", aliases: &[] },
        Codepoint { codepoint: 0x1F82C, name: "LEFTWARDS TRIANGLE-HEADED ARROW WITH HEAVY SHAFT", aliases: &[] },
        Codepoint { codepoint: 0x1F82D, name: "UPWARDS TRIANGLE-HEADED ARROW WITH HEAVY SHAFT", aliases: &[] },
        Codepoint { codepoint: 0x1F82E, name: "RIGHTWARDS TRIANGLE-HEADED ARROW WITH HEAVY SHAFT", aliases: &[] },
        Codepoint { codepoint: 0x1F82F, name: "DOWNWARDS TRIANGLE-HEADED ARROW WITH HEAVY SHAFT", aliases: &[] },
        Codepoint { codepoint: 0x1F830, name: "LEFTWARDS TRIANGLE-HEADED ARROW WITH VERY HEAVY SHAFT", aliases: &[] },
        Codepoint { codepoint: 0x1F831, name: "UPWARDS TRIANGLE-HEADED ARROW WITH VERY HEAVY SHAFT", aliases: &[] },
        Codepoint { codepoint: 0x1F832, name: "RIGHTWARDS TRIANGLE-HEADED ARROW WITH VERY HEAVY SHAFT", aliases: &[] },
        Codepoint { codepoint: 0x1F833, name: "DOWNWARDS TRIANGLE-HEADED ARROW WITH VERY HEAVY SHAFT", aliases: &[] },
        Codepoint { codepoint: 0x1F834, name: "LEFTWARDS FINGER-POST ARROW", aliases: &[] },
        Codepoint { codepoint: 0x1F835, name: "UPWARDS FINGER-POST ARROW", aliases: &[] },
        Codepoint { codepoint: 0x1F836, name: "RIGHTWARDS FINGER-POST ARROW", aliases: &[] },
        Codepoint { codepoint: 0x1F837, name: "DOWNWARDS FINGER-POST ARROW", aliases: &[] },
        Codepoint { codepoint: 0x1F838, name: "LEFTWARDS SQUARED ARROW", aliases: &[] },
        Codepoint { codepoint: 0x1F839, name: "UPWARDS SQUARED ARROW", aliases: &[] },
        Codepoint { codepoint: 0x1F83A, name: "RIGHTWARDS SQUARED ARROW", aliases: &[] },
        Codepoint { codepoint: 0x1F83B, name: "DOWNWARDS SQUARED ARROW", aliases: &[] },
        Codepoint { codepoint: 0x1F83C, name: "LEFTWARDS COMPRESSED ARROW", aliases: &[] },
        Codepoint { codepoint: 0x1F83D, name: "UPWARDS COMPRESSED ARROW", aliases: &[] },
        Codepoint { codepoint: 0x1F83E, name: "RIGHTWARDS COMPRESSED ARROW", aliases: &[] },
        Codepoint { codepoint: 0x1F83F, name: "DOWNWARDS COMPRESSED ARROW", aliases: &[] },
        Codepoint { codepoint: 0x1F840, name: "LEFTWARDS HEAVY COMPRESSED ARROW", aliases: &[] },
        Codepoint { codepoint: 0x1F841, name: "UPWARDS HEAVY COMPRESSED ARROW", aliases: &[] },
        Codepoint { codepoint: 0x1F842, name: "RIGHTWARDS HEAVY COMPRESSED ARROW", aliases: &[] },
        Codepoint { codepoint: 0x1F843, name: "DOWNWARDS HEAVY COMPRESSED ARROW", aliases: &[] },
        Codepoint { codepoint: 0x1F844, name: "LEFTWARDS HEAVY ARROW", aliases: &[] },
        Codepoint { codepoint: 0x1F845, name: "UPWARDS HEAVY ARROW", aliases: &[] },
        Codepoint { codepoint: 0x1F846, name: "RIGHTWARDS HEAVY ARROW", aliases: &[] },
        Codepoint { codepoint: 0x1F847, name: "DOWNWARDS HEAVY ARROW", aliases: &[] },
        Codepoint { codepoint: 0x1F850, name: "LEFTWARDS SANS-SERIF ARROW", aliases: &[] },
        Codepoint { codepoint: 0x1F851, name: "UPWARDS SANS-SERIF ARROW", aliases: &[] },
        Codepoint { codepoint: 0x1F852, name: "RIGHTWARDS SANS-SERIF ARROW", aliases: &[] },
        Codepoint { codepoint: 0x1F853, name: "DOWNWARDS SANS-SERIF ARROW", aliases: &[] },
        Codepoint { codepoint: 0x1F854, name: "NORTH WEST SANS-SERIF ARROW", aliases: &[] },
    ];
    assert(v@ =~= codepoint_table_824());
    v
}

pub open spec fn codepoint_table_825() -> Seq<Codepoint> {
    seq![
        Codepoint { codepoint: 0x1F855, name: "NORTH EAST SANS-SERIF ARROW", aliases: &[] },
        Codepoint { codepoint: 0x1F856, name: "SOUTH EAST SANS-SERIF ARROW", aliases: &[] },
        Codepoint { codepoint: 0x1F857, name: "SOUTH WEST SANS-SERIF ARROW", aliases: &[] },
        Codepoint { codepoint: 0x1F858, name: "LEFT RIGHT SANS-SERIF ARROW", aliases: &[] },
        Codepoint { codepoint: 0x1F859, name: "UP DOWN SANS-SERIF ARROW", aliases: &[] },
        Codepoint { codepoint: 0x1F860, name: "WIDE-HEADED LEFTWARDS LIGHT BARB ARROW", aliases: &[] },
        Codepoint { codepoint: 0x1F861, name: "WIDE-HEADED UPWARDS LIGHT BARB ARROW", aliases: &[] },
        Codepoint { codepoint: 0x1F862, name: "WIDE-HEADED RIGHTWARDS LIGHT BARB ARROW", aliases: &[] },
        Codepoint { codepoint: 0x1F863, name: "WIDE-HEADED DOWNWARDS LIGHT BARB ARROW", aliases: &[] },
        Codepoint { codepoint: 0x1F864, name: "WIDE-HEADED NORTH WEST LIGHT BARB ARROW", aliases: &[] },
        Codepoint { codepoint: 0x1F865, name: "WIDE-HEADED NORTH EAST LIGHT BARB ARROW", aliases: &[] },
        Codepoint { codepoint: 0x1F866, name: "WIDE-HEADED SOUTH EAST LIGHT BARB ARROW", aliases: &[] },
        Codepoint { codepoint: 0x1F867, name: "WIDE-HEADED SOUTH WEST LIGHT BARB ARROW", aliases: &[] },
        Codepoint { codepoint: 0x1F868, name: "WIDE-HEADED LEFTWARDS BARB ARROW", aliases: &[] },
        Codepoint { codepoint: 0x1F869, name: "WIDE-HEADED UPWARDS BARB ARROW", aliases: &[] },
        Codepoint { codepoint: 0x1F86A, name: "WIDE-HEADED RIGHTWARDS BARB ARROW", aliases: &[] },
        Codepoint { codepoint: 0x1F86B, name: "WIDE-HEADED DOWNWARDS BARB ARROW", aliases: &[] },
        Codepoint { codepoint: 0x1F86C, name: "WIDE-HEADED NORTH WEST BARB ARROW", aliases: &[] },
        Codepoint { codepoint: 0x1F86D, name: "WIDE-HEADED NORTH EAST BARB ARROW", aliases: &[] },
        Codepoint { codepoint: 0x1F86E, name: "WIDE-HEADED SOUTH EAST BARB ARROW", aliases: &[] },
        Codepoint { codepoint: 0x1F86F, name: "WIDE-HEADED SOUTH WEST BARB ARROW", aliases: &[] },
        Codepoint { codepoint: 0x1F870, name: "WIDE-HEADED LEFTWARDS MEDIUM BARB ARROW", aliases: &[] },
        Codepoint { codepoint: 0x1F871, name: "WIDE-HEADED UPWARDS MEDIUM BARB ARROW", aliases: &[] },
        Codepoint { codepoint: 0x1F872, name: "WIDE-HEADED RIGHTWARDS MEDIUM BARB ARROW", aliases: &[] },
        Codepoint { codepoint: 0x1F873, name: "WIDE-HEADED DOWNWARDS MEDIUM BARB ARROW", aliases: &[] },
        Codepoint { codepoint: 0x1F874, name: "WIDE-HEADED NORTH WEST MEDIUM BARB ARROW", aliases: &[] },
        Codepoint { codepoint: 0x1F875, name: "WIDE-HEADED NORTH EAST MEDIUM BARB ARROW", aliases: &[] },
        Codepoint { codepoint: 0x1F876, name: "WIDE-HEADED SOUTH EAST MEDIUM BARB ARROW", aliases: &[] },
        Codepoint { codepoint: 0x1F877, name: "WIDE-HEADED SOUTH WEST MEDIUM BARB ARROW", aliases: &[] },
        Codepoint { codepoint: 0x1F878, name: "WIDE-HEADED LEFTWARDS HEAVY BARB ARROW", aliases: &[] },
        Codepoint { codepoint: 0x1F879, name: "WIDE-HEADED UPWARDS HEAVY BARB ARROW", aliases: &[] },
        Codepoint { codepoint: 0x1F87A, name: "WIDE-HEADED RIGHTWARDS HEAVY BARB ARROW", aliases: &[] },
        Codepoint { codepoint: 0x1F87B, name: "WIDE-HEADED DOWNWARDS HEAVY BARB ARROW", aliases: &[] },
        Codepoint { codepoint: 0x1F87C, name: "WIDE-HEADED NORTH WEST HEAVY BARB ARROW", aliases: &[] },
        Codepoint { codepoint: 0x1F87D, name: "WIDE-HEADED NORTH EAST HEAVY BARB ARROW", aliases: &[] },
        Codepoint { codepoint: 0x1F87E, name: "WIDE-HEADED SOUTH EAST HEAVY BARB ARROW", aliases: &[] },
        Codepoint { codepoint: 0x1F87F, name: "WIDE-HEADED SOUTH WEST HEAVY BARB ARROW", aliases: &[] },
        Codepoint { codepoint: 0x1F880, name: "WIDE-HEADED LEFTWARDS VERY HEAVY BARB ARROW", aliases: &[] },
        Codepoint { codepoint: 0x1F881, name: "WIDE-HEADED UPWARDS VERY HEAVY BARB ARROW", aliases: &[] },
        Codepoint { codepoint: 0x1F882, name: "WIDE-HEADED RIGHTWARDS VERY HEAVY BARB ARROW", aliases: &[] },
    ]
}

fn all_codepoints_825() -> (v: Vec<Codepoint>)
    ensures
        v@ == codepoint_table_825(),
{
    let v = vec![
        Codepoint { codepoint: 0x1F855, name: "NORTH EAST SANS-SERIF ARROW", aliases: &[] },
        Codepoint { codepoint: 0x1F856, name: "SOUTH EAST SANS-SERIF ARROW", aliases: &[] },
        Codepoint { codepoint: 0x1F857, name: "SOUTH WEST SANS-SERIF ARROW", aliases: &[] },
        Codepoint { codepoint: 0x1F858, name: "LEFT RIGHT SANS-SERIF ARROW", aliases: &[] },
        Codepoint { codepoint: 0x1F859, name: "UP DOWN SANS-SERIF ARROW", aliases: &[] },
        Codepoint { codepoint: 0x1F860, name: "WIDE-HEADED LEFTWARDS LIGHT BARB ARROW", aliases: &[] },
        Codepoint { codepoint: 0x1F861, name: "WIDE-HEADED UPWARDS LIGHT BARB ARROW", aliases: &[] },
        Codepoint { codepoint: 0x1F862, name: "WIDE-HEADED RIGHTWARDS LIGHT BARB ARROW", aliases: &[] },
        Codepoint { codepoint: 0x1F863, name: "WIDE-HEADED DOWNWARDS LIGHT BARB ARROW", aliases: &[] },
        Codepoint { codepoint: 0x1F864, name: "WIDE-HEADED NORTH WEST LIGHT BARB ARROW", aliases: &[] },
        Codepoint { codepoint: 0x1F865, name: "WIDE-HEADED NORTH EAST LIGHT BARB ARROW", aliases: &[] },
        Codepoint { codepoint: 0x1F866, name: "WIDE-HEADED SOUTH EAST LIGHT BARB ARROW", aliases: &[] },
        Codepoint { codepoint: 0x1F867, name: "WIDE-HEADED SOUTH WEST LIGHT BARB ARROW", aliases: &[] },
        Codepoint { codepoint: 0x1F868, name: "WIDE-HEADED LEFTWARDS BARB ARROW", aliases: &[] },
        Codepoint { codepoint: 0x1F869, name: "WIDE-HEADED UPWARDS BARB ARROW", aliases: &[] },
        Codepoint { codepoint: 0x1F86A, name: "WIDE-HEADED RIGHTWARDS BARB ARROW", aliases: &[] },
        Codepoint { codepoint: 0x1F86B, name: "WIDE-HEADED DOWNWARDS BARB ARROW", aliases: &[] },
        Codepoint { codepoint: 0x1F86C, name: "WIDE-HEADED NORTH WEST BARB ARROW", aliases: &[] },
        Codepoint { codepoint: 0x1F86D, name: "WIDE-HEADED NORTH EAST BARB ARROW", aliases: &[] },
        Codepoint { codepoint: 0x1F86E, name: "WIDE-HEADED SOUTH EAST BARB ARROW", aliases: &[] },
        Codepoint { codepoint: 0x1F86F, name: "WIDE-HEADED SOUTH WEST BARB ARROW", aliases: &[] },
        Codepoint { codepoint: 0x1F870, name: "WIDE-HEADED LEFTWARDS MEDIUM BARB ARROW", aliases: &[] },
        Codepoint { codepoint: 0x1F871, name: "WIDE-HEADED UPWARDS MEDIUM BARB ARROW", aliases: &[] },
        Codepoint { codepoint: 0x1F872, name: "WIDE-HEADED RIGHTWARDS MEDIUM BARB ARROW", aliases: &[] },
        Codepoint { codepoint: 0x1F873, name: "WIDE-HEADED DOWNWARDS MEDIUM BARB ARROW", aliases: &[] },
        Codepoint { codepoint: 0x1F874, name: "WIDE-HEADED NORTH WEST MEDIUM BARB ARROW", aliases: &[] },
        Codepoint { codepoint: 0x1F875, name: "WIDE-HEADED NORTH EAST MEDIUM BARB ARROW", aliases: &[] },
        Codepoint { codepoint: 0x1F876, name: "WIDE-HEADED SOUTH EAST MEDIUM BARB ARROW", aliases: &[] },
        Codepoint { codepoint: 0x1F877, name: "WIDE-HEADED SOUTH WEST MEDIUM BARB ARROW", aliases: &[] },
        Codepoint { codepoint: 0x1F878, name: "WIDE-HEADED LEFTWARDS HEAVY BARB ARROW", aliases: &[] },
        Codepoint { codepoint: 0x1F879, name: "WIDE-HEADED UPWARDS HEAVY BARB ARROW", aliases: &[] },
        Codepoint { codepoint: 0x1F87A, name: "WIDE-HEADED RIGHTWARDS HEAVY BARB ARROW", aliases: &[] },
        Codepoint { codepoint: 0x1F87B, name: "WIDE-HEADED DOWNWARDS HEAVY BARB ARROW", aliases: &[] },
        Codepoint { codepoint: 0x1F87C, name: "WIDE-HEADED NORTH WEST HEAVY BARB ARROW", aliases: &[] },
        Codepoint { codepoint: 0x1F87D, name: "WIDE-HEADED NORTH EAST HEAVY BARB ARROW", aliases: &[] },
        Codepoint { codepoint: 0x1F87E, name: "WIDE-HEADED SOUTH EAST HEAVY BARB ARROW", aliases: &[] },
        Codepoint { codepoint: 0x1F87F, name: "WIDE-HEADED SOUTH WEST HEAVY BARB ARROW", aliases: &[] },
        Codepoint { codepoint: 0x1F880, name: "WIDE-HEADED LEFTWARDS VERY HEAVY BARB ARROW", aliases: &[] },
        Codepoint { codepoint: 0x1F881, name: "WIDE-HEADED UPWARDS VERY HEAVY BARB ARROW", aliases: &[] },
        Codepoint { codepoint: 0x1F882, name: "WIDE-HEADED RIGHTWARDS VERY HEAVY BARB ARROW", aliases: &[] },
    ];
    assert(v@ =~= codepoint_table_825());
    v
}

pub open spec fn codepoint_table_826() -> Seq<Codepoint> {
    seq![
        Codepoint { codepoint: 0x1F883, name: "WIDE-HEADED DOWNWARDS VERY HEAVY BARB ARROW", aliases: &[] },
        Codepoint { codepoint: 0x1F884, name: "WIDE-HEADED NORTH WEST VERY HEAVY BARB ARROW", aliases: &[] },
        Codepoint { codepoint: 0x1F885, name: "WIDE-HEADED NORTH EAST VERY HEAVY BARB ARROW", aliases: &[] },
        Codepoint { codepoint: 0x1F886, name: "WIDE-HEADED SOUTH EAST VERY HEAVY BARB ARROW", aliases: &[] },
        Codepoint { codepoint: 0x1F887, name: "WIDE-HEADED SOUTH WEST VERY HEAVY BARB ARROW", aliases: &[] },
        Codepoint { codepoint: 0x1F890, name: "LEFTWARDS TRIANGLE ARROWHEAD", aliases: &[] },
        Codepoint { codepoint: 0x1F891, name: "UPWARDS TRIANGLE ARROWHEAD", aliases: &[] },
        Codepoint { codepoint: 0x1F892, name: "RIGHTWARDS TRIANGLE ARROWHEAD", aliases: &[] },
        Codepoint { codepoint: 0x1F893, name: "DOWNWARDS TRIANGLE ARROWHEAD", aliases: &[] },
        Codepoint { codepoint: 0x1F894, name: "LEFTWARDS WHITE ARROW WITHIN TRIANGLE ARROWHEAD", aliases: &[] },
        Codepoint { codepoint: 0x1F895, name: "UPWARDS WHITE ARROW WITHIN TRIANGLE ARROWHEAD", aliases: &[] },
        Codepoint { codepoint: 0x1F896, name: "RIGHTWARDS WHITE ARROW WITHIN TRIANGLE ARROWHEAD", aliases: &[] },
        Codepoint { codepoint: 0x1F897, name: "DOWNWARDS WHITE ARROW WITHIN TRIANGLE ARROWHEAD", aliases: &[] },
        Codepoint { codepoint: 0x1F898, name: "LEFTWARDS ARROW WITH NOTCHED TAIL", aliases: &[] },
        Codepoint { codepoint: 0x1F899, name: "UPWARDS ARROW WITH NOTCHED TAIL", aliases: &[] },
        Codepoint { codepoint: 0x1F89A, name: "RIGHTWARDS ARROW WITH NOTCHED TAIL", aliases: &[] },
        Codepoint { codepoint: 0x1F89B, name: "DOWNWARDS ARROW WITH NOTCHED TAIL", aliases: &[] },
        Codepoint { codepoint: 0x1F89C, name: "HEAVY ARROW SHAFT WIDTH ONE", aliases: &[] },
        Codepoint { codepoint: 0x1F89D, name: "HEAVY ARROW SHAFT WIDTH TWO THIRDS", aliases: &[] },
        Codepoint { codepoint: 0x1F89E, name: "HEAVY ARROW SHAFT WIDTH ONE HALF", aliases: &[] },
        Codepoint { codepoint: 0x1F89F, name: "HEAVY ARROW SHAFT WIDTH ONE THIRD", aliases: &[] },
        Codepoint { codepoint: 0x1F8A0, name: "LEFTWARDS BOTTOM-SHADED WHITE ARROW", aliases: &[] },
        Codepoint { codepoint: 0x1F8A1, name: "RIGHTWARDS BOTTOM SHADED WHITE ARROW", aliases: &[] },
        Codepoint { codepoint: 0x1F8A2, name: "LEFTWARDS TOP SHADED WHITE ARROW", aliases: &[] },
        Codepoint { codepoint: 0x1F8A3, name: "RIGHTWARDS TOP SHADED WHITE ARROW", aliases: &[] },
        Codepoint { codepoint: 0x1F8A4, name: "LEFTWARDS LEFT-SHADED WHITE ARROW", aliases: &[] },
        Codepoint { codepoint: 0x1F8A5, name: "RIGHTWARDS RIGHT-SHADED WHITE ARROW", aliases: &[] },
        Codepoint { codepoint: 0x1F8A6, name: "LEFTWARDS RIGHT-SHADED WHITE ARROW", aliases: &[] },
        Codepoint { codepoint: 0x1F8A7, name: "RIGHTWARDS LEFT-SHADED WHITE ARROW", aliases: &[] },
        Codepoint { codepoint: 0x1F8A8, name: "LEFTWARDS BACK-TILTED SHADOWED WHITE ARROW", aliases: &[] },
        Codepoint { codepoint: 0x1F8A9, name: "RIGHTWARDS BACK-TILTED SHADOWED WHITE ARROW", aliases: &[] },
        Codepoint { codepoint: 0x1F8AA, name: "LEFTWARDS FRONT-TILTED SHADOWED WHITE ARROW", aliases: &[] },
        Codepoint { codepoint: 0x1F8AB, name: "RIGHTWARDS FRONT-TILTED SHADOWED WHITE ARROW", aliases: &[] },
        Codepoint { codepoint: 0x1F8AC, name: "WHITE ARROW SHAFT WIDTH ONE", aliases: &[] },
        Codepoint { codepoint: 0x1F8AD, name: "WHITE ARROW SHAFT WIDTH TWO THIRDS", aliases: &[] },
        Codepoint { codepoint: 0x1F8B0, name: "ARROW POINTING UPWARDS THEN NORTH WEST", aliases: &[] },
        Codepoint { codepoint: 0x1F8B1, name: "ARROW POINTING RIGHTWARDS THEN CURVING SOUTH WEST", aliases: &[] },
        Codepoint { codepoint: 0x1F900, name: "CIRCLED CROSS FORMEE WITH FOUR DOTS", aliases: &[] },
        Codepoint { codepoint: 0x1F901, name: "CIRCLED CROSS FORMEE WITH TWO DOTS", aliases: &[] },
        Codepoint { codepoint: 0x1F902, name: "CIRCLED CROSS FORMEE", aliases: &[] },
    ]
}

fn all_codepoints_826() -> (v: Vec<Codepoint>)
    ensures
        v@ == codepoint_table_826(),
{
    let v = vec![
        Codepoint { codepoint: 0x1F883, name: "WIDE-HEADED DOWNWARDS VERY HEAVY BARB ARROW", aliases: &[] },
        Codepoint { codepoint: 0x1F884, name: "WIDE-HEADED NORTH WEST VERY HEAVY BARB ARROW", aliases: &[] },
        Codepoint { codepoint: 0x1F885, name: "WIDE-HEADED NORTH EAST VERY HEAVY BARB ARROW", aliases: &[] },
        Codepoint { codepoint: 0x1F886, name: "WIDE-HEADED SOUTH EAST VERY HEAVY BARB ARROW", aliases: &[] },
        Codepoint { codepoint: 0x1F887, name: "WIDE-HEADED SOUTH WEST VERY HEAVY BARB ARROW", aliases: &[] },
        Codepoint { codepoint: 0x1F890, name: "LEFTWARDS TRIANGLE ARROWHEAD", aliases: &[] },
        Codepoint { codepoint: 0x1F891, name: "UPWARDS TRIANGLE ARROWHEAD", aliases: &[] },
        Codepoint { codepoint: 0x1F892, name: "RIGHTWARDS TRIANGLE ARROWHEAD", aliases: &[] },
        Codepoint { codepoint: 0x1F893, name: "DOWNWARDS TRIANGLE ARROWHEAD", aliases: &[] },
        Codepoint { codepoint: 0x1F894, name: "LEFTWARDS WHITE ARROW WITHIN TRIANGLE ARROWHEAD", aliases: &[] },
        Codepoint { codepoint: 0x1F895, name: "UPWARDS WHITE ARROW WITHIN TRIANGLE ARROWHEAD", aliases: &[] },
        Codepoint { codepoint: 0x1F896, name: "RIGHTWARDS WHITE ARROW WITHIN TRIANGLE ARROWHEAD", aliases: &[] },
        Codepoint { codepoint: 0x1F897, name: "DOWNWARDS WHITE ARROW WITHIN TRIANGLE ARROWHEAD", aliases: &[] },
        Codepoint { codepoint: 0x1F898, name: "LEFTWARDS ARROW WITH NOTCHED TAIL", aliases: &[] },
        Codepoint { codepoint: 0x1F899, name: "UPWARDS ARROW WITH NOTCHED TAIL", aliases: &[] },
        Codepoint { codepoint: 0x1F89A, name: "RIGHTWARDS ARROW WITH NOTCHED TAIL", aliases: &[] },
        Codepoint { codepoint: 0x1F89B, name: "DOWNWARDS ARROW WITH NOTCHED TAIL", aliases: &[] },
        Codepoint { codepoint: 0x1F89C, name: "HEAVY ARROW SHAFT WIDTH ONE", aliases: &[] },
        Codepoint { codepoint: 0x1F89D, name: "HEAVY ARROW SHAFT WIDTH TWO THIRDS", aliases: &[] },
        Codepoint { codepoint: 0x1F89E, name: "HEAVY ARROW SHAFT WIDTH ONE HALF", aliases: &[] },
        Codepoint { codepoint: 0x1F89F, name: "HEAVY ARROW SHAFT WIDTH ONE THIRD", aliases: &[] },
        Codepoint { codepoint: 0x1F8A0, name: "LEFTWARDS BOTTOM-SHADED WHITE ARROW", aliases: &[] },
        Codepoint { codepoint: 0x1F8A1, name: "RIGHTWARDS BOTTOM SHADED WHITE ARROW", aliases: &[] },
        Codepoint { codepoint: 0x1F8A2, name: "LEFTWARDS TOP SHADED WHITE ARROW", aliases: &[] },
        Codepoint { codepoint: 0x1F8A3, name: "RIGHTWARDS TOP SHADED WHITE ARROW", aliases: &[] },
        Codepoint { codepoint: 0x1F8A4, name: "LEFTWARDS LEFT-SHADED WHITE ARROW", aliases: &[] },
        Codepoint { codepoint: 0x1F8A5, name: "RIGHTWARDS RIGHT-SHADED WHITE ARROW", aliases: &[] },
        Codepoint { codepoint: 0x1F8A6, name: "LEFTWARDS RIGHT-SHADED WHITE ARROW", aliases: &[] },
        Codepoint { codepoint: 0x1F8A7, name: "RIGHTWARDS LEFT-SHADED WHITE ARROW", aliases: &[] },
        Codepoint { codepoint: 0x1F8A8, name: "LEFTWARDS BACK-TILTED SHADOWED WHITE ARROW", aliases: &[] },
        Codepoint { codepoint: 0x1F8A9, name: "RIGHTWARDS BACK-TILTED SHADOWED WHITE ARROW", aliases: &[] },
        Codepoint { codepoint: 0x1F8AA, name: "LEFTWARDS FRONT-TILTED SHADOWED WHITE ARROW", aliases: &[] },
        Codepoint { codepoint: 0x1F8AB, name: "RIGHTWARDS FRONT-TILTED SHADOWED WHITE ARROW", aliases: &[] },
        Codepoint { codepoint: 0x1F8AC, name: "WHITE ARROW SHAFT WIDTH ONE", aliases: &[] },
        Codepoint { codepoint: 0x1F8AD, name: "WHITE ARROW SHAFT WIDTH TWO THIRDS", aliases: &[] },
        Codepoint { codepoint: 0x1F8B0, name: "ARROW POINTING UPWARDS THEN NORTH WEST", aliases: &[] },
        Codepoint { codepoint: 0x1F8B1, name: "ARROW POINTING RIGHTWARDS THEN CURVING SOUTH WEST", aliases: &[] },
        Codepoint { codepoint: 0x1F900, name: "CIRCLED CROSS FORMEE WITH FOUR DOTS", aliases: &[] },
        Codepoint { codepoint: 0x1F901, name: "CIRCLED CROSS FORMEE WITH TWO DOTS", aliases: &[] },
        Codepoint { codepoint: 0x1F902, name: "CIRCLED CROSS FORMEE", aliases: &[] },
    ];
    assert(v@ =~= codepoint_table_826());
    v
}

pub open spec fn codepoint_table_827() -> Seq<Codepoint> {
    seq![
        Codepoint { codepoint: 0x1F903, name: "LEFT HALF CIRCLE WITH FOUR DOTS", aliases: &[] },
        Codepoint { codepoint: 0x1F904, name: "LEFT HALF CIRCLE WITH THREE DOTS", aliases: &[] },
        Codepoint { codepoint: 0x1F905, name: "LEFT HALF CIRCLE WITH TWO DOTS", aliases: &[] },
        Codepoint { codepoint: 0x1F906, name: "LEFT HALF CIRCLE WITH DOT", aliases: &[] },
        Codepoint { codepoint: 0x1F907, name: "LEFT HALF CIRCLE", aliases: &[] },
        Codepoint { codepoint: 0x1F908, name: "DOWNWARD FACING HOOK", aliases: &[] },
        Codepoint { codepoint: 0x1F909, name: "DOWNWARD FACING NOTCHED HOOK", aliases: &[] },
        Codepoint { codepoint: 0x1F90A, name: "DOWNWARD FACING HOOK WITH DOT", aliases: &[] },
        Codepoint { codepoint: 0x1F90B, name: "DOWNWARD FACING NOTCHED HOOK WITH DOT", aliases: &[] },
        Codepoint { codepoint: 0x1F90C, name: "PINCHED FINGERS", aliases: &[] },
        Codepoint { codepoint: 0x1F90D, name: "WHITE HEART", aliases: &[] },
        Codepoint { codepoint: 0x1F90E, name: "BROWN HEART", aliases: &[] },
        Codepoint { codepoint: 0x1F90F, name: "PINCHING HAND", aliases: &[] },
        Codepoint { codepoint: 0x1F910, name: "ZIPPER-MOUTH FACE", aliases: &[] },
        Codepoint { codepoint: 0x1F911, name: "MONEY-MOUTH FACE", aliases: &[] },
        Codepoint { codepoint: 0x1F912, name: "FACE WITH THERMOMETER", aliases: &[] },
        Codepoint { codepoint: 0x1F913, name: "NERD FACE", aliases: &[] },
        Codepoint { codepoint: 0x1F914, name: "THINKING FACE", aliases: &[] },
        Codepoint { codepoint: 0x1F915, name: "FACE WITH HEAD-BANDAGE", aliases: &[] },
        Codepoint { codepoint: 0x1F916, name: "ROBOT FACE", aliases: &[] },
        Codepoint { codepoint: 0x1F917, name: "HUGGING FACE", aliases: &[] },
        Codepoint { codepoint: 0x1F918, name: "SIGN OF THE HORNS", aliases: &[] },
        Codepoint { codepoint: 0x1F919, name: "CALL ME HAND", aliases: &[] },
        Codepoint { codepoint: 0x1F91A, name: "RAISED BACK OF HAND", aliases: &[] },
        Codepoint { codepoint: 0x1F91B, name: "LEFT-FACING FIST", aliases: &[] },
        Codepoint { codepoint: 0x1F91C, name: "RIGHT-FACING FIST", aliases: &[] },
        Codepoint { codepoint: 0x1F91D, name: "HANDSHAKE", aliases: &[] },
        Codepoint { codepoint: 0x1F91E, name: "HAND WITH INDEX AND MIDDLE FINGERS CROSSED", aliases: &[] },
        Codepoint { codepoint: 0x1F91F, name: "I LOVE YOU HAND SIGN", aliases: &[] },
        Codepoint { codepoint: 0x1F920, name: "FACE WITH COWBOY HAT", aliases: &[] },
        Codepoint { codepoint: 0x1F921, name: "CLOWN FACE", aliases: &[] },
        Codepoint { codepoint: 0x1F922, name: "NAUSEATED FACE", aliases: &[] },
        Codepoint { codepoint: 0x1F923, name: "ROLLING ON THE FLOOR LAUGHING", aliases: &[] },
        Codepoint { codepoint: 0x1F924, name: "DROOLING FACE", aliases: &[] },
        Codepoint { codepoint: 0x1F925, name: "LYING FACE", aliases: &[] },
        Codepoint { codepoint: 0x1F926, name: "FACE PALM", aliases: &[] },
        Codepoint { codepoint: 0x1F927, name: "SNEEZING FACE", aliases: &[] },
        Codepoint { codepoint: 0x1F928, name: "FACE WITH ONE EYEBROW RAISED", aliases: &[] },
        Codepoint { codepoint: 0x1F929, name: "GRINNING FACE WITH STAR EYES", aliases: &[] },
        Codepoint { codepoint: 0x1F92A, name: "GRINNING FACE WITH ONE LARGE AND ONE SMALL EYE", aliases: &[] },
    ]
}

fn all_codepoints_827() -> (v: Vec<Codepoint>)
    ensures
        v@ == codepoint_table_827(),
{
    let v = vec![
        Codepoint { codepoint: 0x1F903, name: "LEFT HALF CIRCLE WITH FOUR DOTS", aliases: &[] },
        Codepoint { codepoint: 0x1F904, name: "LEFT HALF CIRCLE WITH THREE DOTS", aliases: &[] },
        Codepoint { codepoint: 0x1F905, name: "LEFT HALF CIRCLE WITH TWO DOTS", aliases: &[] },
        Codepoint { codepoint: 0x1F906, name: "LEFT HALF CIRCLE WITH DOT", aliases: &[] },
        Codepoint { codepoint: 0x1F907, name: "LEFT HALF CIRCLE", aliases: &[] },
        Codepoint { codepoint: 0x1F908, name: "DOWNWARD FACING HOOK", aliases: &[] },
        Codepoint { codepoint: 0x1F909, name: "DOWNWARD FACING NOTCHED HOOK", aliases: &[] },
        Codepoint { codepoint: 0x1F90A, name: "DOWNWARD FACING HOOK WITH DOT", aliases: &[] },
        Codepoint { codepoint: 0x1F90B, name: "DOWNWARD FACING NOTCHED HOOK WITH DOT", aliases: &[] },
        Codepoint { codepoint: 0x1F90C, name: "PINCHED FINGERS", aliases: &[] },
        Codepoint { codepoint: 0x1F90D, name: "WHITE HEART", aliases: &[] },
        Codepoint { codepoint: 0x1F90E, name: "BROWN HEART", aliases: &[] },
        Codepoint { codepoint: 0x1F90F, name: "PINCHING HAND", aliases: &[] },
        Codepoint { codepoint: 0x1F910, name: "ZIPPER-MOUTH FACE", aliases: &[] },
        Codepoint { codepoint: 0x1F911, name: "MONEY-MOUTH FACE", aliases: &[] },
        Codepoint { codepoint: 0x1F912, name: "FACE WITH THERMOMETER", aliases: &[] },
        Codepoint { codepoint: 0x1F913, name: "NERD FACE", aliases: &[] },
        Codepoint { codepoint: 0x1F914, name: "THINKING FACE", aliases: &[] },
        Codepoint { codepoint: 0x1F915, name: "FACE WITH HEAD-BANDAGE", aliases: &[] },
        Codepoint { codepoint: 0x1F916, name: "ROBOT FACE", aliases: &[] },
        Codepoint { codepoint: 0x1F917, name: "HUGGING FACE", aliases: &[] },
        Codepoint { codepoint: 0x1F918, name: "SIGN OF THE HORNS", aliases: &[] },
        Codepoint { codepoint: 0x1F919, name: "CALL ME HAND", aliases: &[] },
        Codepoint { codepoint: 0x1F91A, name: "RAISED BACK OF HAND", aliases: &[] },
        Codepoint { codepoint: 0x1F91B, name: "LEFT-FACING FIST", aliases: &[] },
        Codepoint { codepoint: 0x1F91C, name: "RIGHT-FACING FIST", aliases: &[] },
        Codepoint { codepoint: 0x1F91D, name: "HANDSHAKE", aliases: &[] },
        Codepoint { codepoint: 0x1F91E, name: "HAND WITH INDEX AND MIDDLE FINGERS CROSSED", aliases: &[] },
        Codepoint { codepoint: 0x1F91F, name: "I LOVE YOU HAND SIGN", aliases: &[] },
        Codepoint { codepoint: 0x1F920, name: "FACE WITH COWBOY HAT", aliases: &[] },
        Codepoint { codepoint: 0x1F921, name: "CLOWN FACE", aliases: &[] },
        Codepoint { codepoint: 0x1F922, name: "NAUSEATED FACE", aliases: &[] },
        Codepoint { codepoint: 0x1F923, name: "ROLLING ON THE FLOOR LAUGHING", aliases: &[] },
        Codepoint { codepoint: 0x1F924, name: "DROOLING FACE", aliases: &[] },
        Codepoint { codepoint: 0x1F925, name: "LYING FACE", aliases: &[] },
        Codepoint { codepoint: 0x1F926, name: "FACE PALM", aliases: &[] },
        Codepoint { codepoint: 0x1F927, name: "SNEEZING FACE", aliases: &[] },
        Codepoint { codepoint: 0x1F928, name: "FACE WITH ONE EYEBROW RAISED", aliases: &[] },
        Codepoint { codepoint: 0x1F929, name: "GRINNING FACE WITH STAR EYES", aliases: &[] },
        Codepoint { codepoint: 0x1F92A, name: "GRINNING FACE WITH ONE LARGE AND ONE SMALL EYE", aliases: &[] },
    ];
    assert(v@ =~= codepoint_table_827());
    v
}

pub open spec fn codepoint_table_828() -> Seq<Codepoint> {
    seq![
        Codepoint { codepoint: 0x1F92B, name: "FACE WITH FINGER COVERING CLOSED LIPS", aliases: &[] },
        Codepoint { codepoint: 0x1F92C, name: "SERIOUS FACE WITH SYMBOLS COVERING MOUTH", aliases: &[] },
        Codepoint { codepoint: 0x1F92D, name: "SMILING FACE WITH SMILING EYES AND HAND COVERING MOUTH", aliases: &[] },
        Codepoint { codepoint: 0x1F92E, name: "FACE WITH OPEN MOUTH VOMITING", aliases: &[] },
        Codepoint { codepoint: 0x1F92F, name: "SHOCKED FACE WITH EXPLODING HEAD", aliases: &[] },
        Codepoint { codepoint: 0x1F930, name: "PREGNANT WOMAN", aliases: &[] },
        Codepoint { codepoint: 0x1F931, name: "BREAST-FEEDING", aliases: &[] },
        Codepoint { codepoint: 0x1F932, name: "PALMS UP TOGETHER", aliases: &[] },
        Codepoint { codepoint: 0x1F933, name: "SELFIE", aliases: &[] },
        Codepoint { codepoint: 0x1F934, name: "PRINCE", aliases: &[] },
        Codepoint { codepoint: 0x1F935, name: "MAN IN TUXEDO", aliases: &[] },
        Codepoint { codepoint: 0x1F936, name: "MOTHER CHRISTMAS", aliases: &[] },
        Codepoint { codepoint: 0x1F937, name: "SHRUG", aliases: &[] },
        Codepoint { codepoint: 0x1F938, name: "PERSON DOING CARTWHEEL", aliases: &[] },
        Codepoint { codepoint: 0x1F939, name: "JUGGLING", aliases: &[] },
        Codepoint { codepoint: 0x1F93A, name: "FENCER", aliases: &[] },
        Codepoint { codepoint: 0x1F93B, name: "MODERN PENTATHLON", aliases: &[] },
        Codepoint { codepoint: 0x1F93C, name: "WRESTLERS", aliases: &[] },
        Codepoint { codepoint: 0x1F93D, name: "WATER POLO", aliases: &[] },
        Codepoint { codepoint: 0x1F93E, name: "HANDBALL", aliases: &[] },
        Codepoint { codepoint: 0x1F93F, name: "DIVING MASK", aliases: &[] },
        Codepoint { codepoint: 0x1F940, name: "WILTED FLOWER", aliases: &[] },
        Codepoint { codepoint: 0x1F941, name: "DRUM WITH DRUMSTICKS", aliases: &[] },
        Codepoint { codepoint: 0x1F942, name: "CLINKING GLASSES", aliases: &[] },
        Codepoint { codepoint: 0x1F943, name: "TUMBLER GLASS", aliases: &[] },
        Codepoint { codepoint: 0x1F944, name: "SPOON", aliases: &[] },
        Codepoint { codepoint: 0x1F945, name: "GOAL NET", aliases: &[] },
        Codepoint { codepoint: 0x1F946, name: "RIFLE", aliases: &[] },
        Codepoint { codepoint: 0x1F947, name: "FIRST PLACE MEDAL", aliases: &[] },
        Codepoint { codepoint: 0x1F948, name: "SECOND PLACE MEDAL", aliases: &[] },
        Codepoint { codepoint: 0x1F949, name: "THIRD PLACE MEDAL", aliases: &[] },
        Codepoint { codepoint: 0x1F94A, name: "BOXING GLOVE", aliases: &[] },
        Codepoint { codepoint: 0x1F94B, name: "MARTIAL ARTS UNIFORM", aliases: &[] },
        Codepoint { codepoint: 0x1F94C, name: "CURLING STONE", aliases: &[] },
        Codepoint { codepoint: 0x1F94D, name: "LACROSSE STICK AND BALL", aliases: &[] },
        Codepoint { codepoint: 0x1F94E, name: "SOFTBALL", aliases: &[] },
        Codepoint { codepoint: 0x1F94F, name: "FLYING DISC", aliases: &[] },
        Codepoint { codepoint: 0x1F950, name: "CROISSANT", aliases: &[] },
        Codepoint { codepoint: 0x1F951, name: "AVOCADO", aliases: &[] },
        Codepoint { codepoint: 0x1F952, name: "CUCUMBER", aliases: &[] },
    ]
}

fn all_codepoints_828() -> (v: Vec<Codepoint>)
    ensures
        v@ == codepoint_table_828(),
{
    let v = vec![
        Codepoint { codepoint: 0x1F92B, name: "FACE WITH FINGER COVERING CLOSED LIPS", aliases: &[] },
        Codepoint { codepoint: 0x1F92C, name: "SERIOUS FACE WITH SYMBOLS COVERING MOUTH", aliases: &[] },
        Codepoint { codepoint: 0x1F92D, name: "SMILING FACE WITH SMILING EYES AND HAND COVERING MOUTH", aliases: &[] },
        Codepoint { codepoint: 0x1F92E, name: "FACE WITH OPEN MOUTH VOMITING", aliases: &[] },
        Codepoint { codepoint: 0x1F92F, name: "SHOCKED FACE WITH EXPLODING HEAD", aliases: &[] },
        Codepoint { codepoint: 0x1F930, name: "PREGNANT WOMAN", aliases: &[] },
        Codepoint { codepoint: 0x1F931, name: "BREAST-FEEDING", aliases: &[] },
        Codepoint { codepoint: 0x1F932, name: "PALMS UP TOGETHER", aliases: &[] },
        Codepoint { codepoint: 0x1F933, name: "SELFIE", aliases: &[] },
        Codepoint { codepoint: 0x1F934, name: "PRINCE", aliases: &[] },
        Codepoint { codepoint: 0x1F935, name: "MAN IN TUXEDO", aliases: &[] },
        Codepoint { codepoint: 0x1F936, name: "MOTHER CHRISTMAS", aliases: &[] },
        Codepoint { codepoint: 0x1F937, name: "SHRUG", aliases: &[] },
        Codepoint { codepoint: 0x1F938, name: "PERSON DOING CARTWHEEL", aliases: &[] },
        Codepoint { codepoint: 0x1F939, name: "JUGGLING", aliases: &[] },
        Codepoint { codepoint: 0x1F93A, name: "FENCER", aliases: &[] },
        Codepoint { codepoint: 0x1F93B, name: "MODERN PENTATHLON", aliases: &[] },
        Codepoint { codepoint: 0x1F93C, name: "WRESTLERS", aliases: &[] },
        Codepoint { codepoint: 0x1F93D, name: "WATER POLO", aliases: &[] },
        Codepoint { codepoint: 0x1F93E, name: "HANDBALL", aliases: &[] },
        Codepoint { codepoint: 0x1F93F, name: "DIVING MASK", aliases: &[] },
        Codepoint { codepoint: 0x1F940, name: "WILTED FLOWER", aliases: &[] },
        Codepoint { codepoint: 0x1F941, name: "DRUM WITH DRUMSTICKS", aliases: &[] },
        Codepoint { codepoint: 0x1F942, name: "CLINKING GLASSES", aliases: &[] },
        Codepoint { codepoint: 0x1F943, name: "TUMBLER GLASS", aliases: &[] },
        Codepoint { codepoint: 0x1F944, name: "SPOON", aliases: &[] },
        Codepoint { codepoint: 0x1F945, name: "GOAL NET", aliases: &[] },
        Codepoint { codepoint: 0x1F946, name: "RIFLE", aliases: &[] },
        Codepoint { codepoint: 0x1F947, name: "FIRST PLACE MEDAL", aliases: &[] },
        Codepoint { codepoint: 0x1F948, name: "SECOND PLACE MEDAL", aliases: &[] },
        Codepoint { codepoint: 0x1F949, name: "THIRD PLACE MEDAL", aliases: &[] },
        Codepoint { codepoint: 0x1F94A, name: "BOXING GLOVE", aliases: &[] },
        Codepoint { codepoint: 0x1F94B, name: "MARTIAL ARTS UNIFORM", aliases: &[] },
        Codepoint { codepoint: 0x1F94C, name: "CURLING STONE", aliases: &[] },
        Codepoint { codepoint: 0x1F94D, name: "LACROSSE STICK AND BALL", aliases: &[] },
        Codepoint { codepoint: 0x1F94E, name: "SOFTBALL", aliases: &[] },
        Codepoint { codepoint: 0x1F94F, name: "FLYING DISC", aliases: &[] },
        Codepoint { codepoint: 0x1F950, name: "CROISSANT", aliases: &[] },
        Codepoint { codepoint: 0x1F951, name: "AVOCADO", aliases: &[] },
        Codepoint { codepoint: 0x1F952, name: "CUCUMBER", aliases: &[] },
    ];
    assert(v@ =~= codepoint_table_828());
    v
}

pub open spec fn codepoint_table_829() -> Seq<Codepoint> {
    seq![
        Codepoint { codepoint: 0x1F953, name: "BACON", aliases: &[] },
        Codepoint { codepoint: 0x1F954, name: "POTATO", aliases: &[] },
        Codepoint { codepoint: 0x1F955, name: "CARROT", aliases: &[] },
        Codepoint { codepoint: 0x1F956, name: "BAGUETTE BREAD", aliases: &[] },
        Codepoint { codepoint: 0x1F957, name: "GREEN SALAD", aliases: &[] },
        Codepoint { codepoint: 0x1F958, name: "SHALLOW PAN OF FOOD", aliases: &[] },
        Codepoint { codepoint: 0x1F959, name: "STUFFED FLATBREAD", aliases: &[] },
        Codepoint { codepoint: 0x1F95A, name: "EGG", aliases: &[] },
        Codepoint { codepoint: 0x1F95B, name: "GLASS OF MILK", aliases: &[] },
        Codepoint { codepoint: 0x1F95C, name: "PEANUTS", aliases: &[] },
        Codepoint { codepoint: 0x1F95D, name: "KIWIFRUIT", aliases: &[] },
        Codepoint { codepoint: 0x1F95E, name: "PANCAKES", aliases: &[] },
        Codepoint { codepoint: 0x1F95F, name: "DUMPLING", aliases: &[] },
        Codepoint { codepoint: 0x1F960, name: "FORTUNE COOKIE", aliases: &[] },
        Codepoint { codepoint: 0x1F961, name: "TAKEOUT BOX", aliases: &[] },
        Codepoint { codepoint: 0x1F962, name: "CHOPSTICKS", aliases: &[] },
        Codepoint { codepoint: 0x1F963, name: "BOWL WITH SPOON", aliases: &[] },
        Codepoint { codepoint: 0x1F964, name: "CUP WITH STRAW", aliases: &[] },
        Codepoint { codepoint: 0x1F965, name: "COCONUT", aliases: &[] },
        Codepoint { codepoint: 0x1F966, name: "BROCCOLI", aliases: &[] },
        Codepoint { codepoint: 0x1F967, name: "PIE", aliases: &[] },
        Codepoint { codepoint: 0x1F968, name: "PRETZEL", aliases: &[] },
        Codepoint { codepoint: 0x1F969, name: "CUT OF MEAT", aliases: &[] },
        Codepoint { codepoint: 0x1F96A, name: "SANDWICH", aliases: &[] },
        Codepoint { codepoint: 0x1F96B, name: "CANNED FOOD", aliases: &[] },
        Codepoint { codepoint: 0x1F96C, name: "LEAFY GREEN", aliases: &[] },
        Codepoint { codepoint: 0x1F96D, name: "MANGO", aliases: &[] },
        Codepoint { codepoint: 0x1F96E, name: "MOON CAKE", aliases: &[] },
        Codepoint { codepoint: 0x1F96F, name: "BAGEL", aliases: &[] },
        Codepoint { codepoint: 0x1F970, name: "SMILING FACE WITH SMILING EYES AND THREE HEARTS", aliases: &[] },
        Codepoint { codepoint: 0x1F971, name: "YAWNING FACE", aliases: &[] },
        Codepoint { codepoint: 0x1F972, name: "SMILING FACE WITH TEAR", aliases: &[] },
        Codepoint { codepoint: 0x1F973, name: "FACE WITH PARTY HORN AND PARTY HAT", aliases: &[] },
        Codepoint { codepoint: 0x1F974, name: "FACE WITH UNEVEN EYES AND WAVY MOUTH", aliases: &[] },
        Codepoint { codepoint: 0x1F975, name: "OVERHEATED FACE", aliases: &[] },
        Codepoint { codepoint: 0x1F976, name: "FREEZING FACE", aliases: &[] },
        Codepoint { codepoint: 0x1F977, name: "NINJA", aliases: &[] },
        Codepoint { codepoint: 0x1F978, name: "DISGUISED FACE", aliases: &[] },
        Codepoint { codepoint: 0x1F979, name: "FACE HOLDING BACK TEARS", aliases: &[] },
        Codepoint { codepoint: 0x1F97A, name: "FACE WITH PLEADING EYES", aliases: &[] },
    ]
}

fn all_codepoints_829() -> (v: Vec<Codepoint>)
    ensures
        v@ == codepoint_table_829(),
{
    let v = vec![
        Codepoint { codepoint: 0x1F953, name: "BACON", aliases: &[] },
        Codepoint { codepoint: 0x1F954, name: "POTATO", aliases: &[] },
        Codepoint { codepoint: 0x1F955, name: "CARROT", aliases: &[] },
        Codepoint { codepoint: 0x1F956, name: "BAGUETTE BREAD", aliases: &[] },
        Codepoint { codepoint: 0x1F957, name: "GREEN SALAD", aliases: &[] },
        Codepoint { codepoint: 0x1F958, name: "SHALLOW PAN OF FOOD", aliases: &[] },
        Codepoint { codepoint: 0x1F959, name: "STUFFED FLATBREAD", aliases: &[] },
        Codepoint { codepoint: 0x1F95A, name: "EGG", aliases: &[] },
        Codepoint { codepoint: 0x1F95B, name: "GLASS OF MILK", aliases: &[] },
        Codepoint { codepoint: 0x1F95C, name: "PEANUTS", aliases: &[] },
        Codepoint { codepoint: 0x1F95D, name: "KIWIFRUIT", aliases: &[] },
        Codepoint { codepoint: 0x1F95E, name: "PANCAKES", aliases: &[] },
        Codepoint { codepoint: 0x1F95F, name: "DUMPLING", aliases: &[] },
        Codepoint { codepoint: 0x1F960, name: "FORTUNE COOKIE", aliases: &[] },
        Codepoint { codepoint: 0x1F961, name: "TAKEOUT BOX", aliases: &[] },
        Codepoint { codepoint: 0x1F962, name: "CHOPSTICKS", aliases: &[] },
        Codepoint { codepoint: 0x1F963, name: "BOWL WITH SPOON", aliases: &[] },
        Codepoint { codepoint: 0x1F964, name: "CUP WITH STRAW", aliases: &[] },
        Codepoint { codepoint: 0x1F965, name: "COCONUT", aliases: &[] },
        Codepoint { codepoint: 0x1F966, name: "BROCCOLI", aliases: &[] },
        Codepoint { codepoint: 0x1F967, name: "PIE", aliases: &[] },
        Codepoint { codepoint: 0x1F968, name: "PRETZEL", aliases: &[] },
        Codepoint { codepoint: 0x1F969, name: "CUT OF MEAT", aliases: &[] },
        Codepoint { codepoint: 0x1F96A, name: "SANDWICH", aliases: &[] },
        Codepoint { codepoint: 0x1F96B, name: "CANNED FOOD", aliases: &[] },
        Codepoint { codepoint: 0x1F96C, name: "LEAFY GREEN", aliases: &[] },
        Codepoint { codepoint: 0x1F96D, name: "MANGO", aliases: &[] },
        Codepoint { codepoint: 0x1F96E, name: "MOON CAKE", aliases: &[] },
        Codepoint { codepoint: 0x1F96F, name: "BAGEL", aliases: &[] },
        Codepoint { codepoint: 0x1F970, name: "SMILING FACE WITH SMILING EYES AND THREE HEARTS", aliases: &[] },
        Codepoint { codepoint: 0x1F971, name: "YAWNING FACE", aliases: &[] },
        Codepoint { codepoint: 0x1F972, name: "SMILING FACE WITH TEAR", aliases: &[] },
        Codepoint { codepoint: 0x1F973, name: "FACE WITH PARTY HORN AND PARTY HAT", aliases: &[] },
        Codepoint { codepoint: 0x1F974, name: "FACE WITH UNEVEN EYES AND WAVY MOUTH", aliases: &[] },
        Codepoint { codepoint: 0x1F975, name: "OVERHEATED FACE", aliases: &[] },
        Codepoint { codepoint: 0x1F976, name: "FREEZING FACE", aliases: &[] },
        Codepoint { codepoint: 0x1F977, name: "NINJA", aliases: &[] },
        Codepoint { codepoint: 0x1F978, name: "DISGUISED FACE", aliases: &[] },
        Codepoint { codepoint: 0x1F979, name: "FACE HOLDING BACK TEARS", aliases: &[] },
        Codepoint { codepoint: 0x1F97A, name: "FACE WITH PLEADING EYES", aliases: &[] },
    ];
    assert(v@ =~= codepoint_table_829());
    v
}

pub open spec fn codepoint_table_830() -> Seq<Codepoint> {
    seq![
        Codepoint { codepoint: 0x1F97B, name: "SARI", aliases: &[] },
        Codepoint { codepoint: 0x1F97C, name: "LAB COAT", aliases: &[] },
        Codepoint { codepoint: 0x1F97D, name: "GOGGLES", aliases: &[] },
        Codepoint { codepoint: 0x1F97E, name: "HIKING BOOT", aliases: &[] },
        Codepoint { codepoint: 0x1F97F, name: "FLAT SHOE", aliases: &[] },
        Codepoint { codepoint: 0x1F980, name: "CRAB", aliases: &[] },
        Codepoint { codepoint: 0x1F981, name: "LION FACE", aliases: &[] },
        Codepoint { codepoint: 0x1F982, name: "SCORPION", aliases: &[] },
        Codepoint { codepoint: 0x1F983, name: "TURKEY", aliases: &[] },
        Codepoint { codepoint: 0x1F984, name: "UNICORN FACE", aliases: &[] },
        Codepoint { codepoint: 0x1F985, name: "EAGLE", aliases: &[] },
        Codepoint { codepoint: 0x1F986, name: "DUCK", aliases: &[] },
        Codepoint { codepoint: 0x1F987, name: "BAT", aliases: &[] },
        Codepoint { codepoint: 0x1F988, name: "SHARK", aliases: &[] },
        Codepoint { codepoint: 0x1F989, name: "OWL", aliases: &[] },
        Codepoint { codepoint: 0x1F98A, name: "FOX FACE", aliases: &[] },
        Codepoint { codepoint: 0x1F98B, name: "BUTTERFLY", aliases: &[] },
        Codepoint { codepoint: 0x1F98C, name: "DEER", aliases: &[] },
        Codepoint { codepoint: 0x1F98D, name: "GORILLA", aliases: &[] },
        Codepoint { codepoint: 0x1F98E, name: "LIZARD", aliases: &[] },
        Codepoint { codepoint: 0x1F98F, name: "RHINOCEROS", aliases: &[] },
        Codepoint { codepoint: 0x1F990, name: "SHRIMP", aliases: &[] },
        Codepoint { codepoint: 0x1F991, name: "SQUID", aliases: &[] },
        Codepoint { codepoint: 0x1F992, name: "GIRAFFE FACE", aliases: &[] },
        Codepoint { codepoint: 0x1F993, name: "ZEBRA FACE", aliases: &[] },
        Codepoint { codepoint: 0x1F994, name: "HEDGEHOG", aliases: &[] },
        Codepoint { codepoint: 0x1F995, name: "SAUROPOD", aliases: &[] },
        Codepoint { codepoint: 0x1F996, name: "T-REX", aliases: &[] },
        Codepoint { codepoint: 0x1F997, name: "CRICKET", aliases: &[] },
        Codepoint { codepoint: 0x1F998, name: "KANGAROO", aliases: &[] },
        Codepoint { codepoint: 0x1F999, name: "LLAMA", aliases: &[] },
        Codepoint { codepoint: 0x1F99A, name: "PEACOCK", aliases: &[] },
        Codepoint { codepoint: 0x1F99B, name: "HIPPOPOTAMUS", aliases: &[] },
        Codepoint { codepoint: 0x1F99C, name: "PARROT", aliases: &[] },
        Codepoint { codepoint: 0x1F99D, name: "RACCOON", aliases: &[] },
        Codepoint { codepoint: 0x1F99E, name: "LOBSTER", aliases: &[] },
        Codepoint { codepoint: 0x1F99F, name: "MOSQUITO", aliases: &[] },
        Codepoint { codepoint: 0x1F9A0, name: "MICROBE", aliases: &[] },
        Codepoint { codepoint: 0x1F9A1, name: "BADGER", aliases: &[] },
        Codepoint { codepoint: 0x1F9A2, name: "SWAN", aliases: &[] },
    ]
}

fn all_codepoints_830() -> (v: Vec<Codepoint>)
    ensures
        v@ == codepoint_table_830(),
{
    let v = vec![
        Codepoint { codepoint: 0x1F97B, name: "SARI", aliases: &[] },
        Codepoint { codepoint: 0x1F97C, name: "LAB COAT", aliases: &[] },
        Codepoint { codepoint: 0x1F97D, name: "GOGGLES", aliases: &[] },
        Codepoint { codepoint: 0x1F97E, name: "HIKING BOOT", aliases: &[] },
        Codepoint { codepoint: 0x1F97F, name: "FLAT SHOE", aliases: &[] },
        Codepoint { codepoint: 0x1F980, name: "CRAB", aliases: &[] },
        Codepoint { codepoint: 0x1F981, name: "LION FACE", aliases: &[] },
        Codepoint { codepoint: 0x1F982, name: "SCORPION", aliases: &[] },
        Codepoint { codepoint: 0x1F983, name: "TURKEY", aliases: &[] },
        Codepoint { codepoint: 0x1F984, name: "UNICORN FACE", aliases: &[] },
        Codepoint { codepoint: 0x1F985, name: "EAGLE", aliases: &[] },
        Codepoint { codepoint: 0x1F986, name: "DUCK", aliases: &[] },
        Codepoint { codepoint: 0x1F987, name: "BAT", aliases: &[] },
        Codepoint { codepoint: 0x1F988, name: "SHARK", aliases: &[] },
        Codepoint { codepoint: 0x1F989, name: "OWL", aliases: &[] },
        Codepoint { codepoint: 0x1F98A, name: "FOX FACE", aliases: &[] },
        Codepoint { codepoint: 0x1F98B, name: "BUTTERFLY", aliases: &[] },
        Codepoint { codepoint: 0x1F98C, name: "DEER", aliases: &[] },
        Codepoint { codepoint: 0x1F98D, name: "GORILLA", aliases: &[] },
        Codepoint { codepoint: 0x1F98E, name: "LIZARD", aliases: &[] },
        Codepoint { codepoint: 0x1F98F, name: "RHINOCEROS", aliases: &[] },
        Codepoint { codepoint: 0x1F990, name: "SHRIMP", aliases: &[] },
        Codepoint { codepoint: 0x1F991, name: "SQUID", aliases: &[] },
        Codepoint { codepoint: 0x1F992, name: "GIRAFFE FACE", aliases: &[] },
        Codepoint { codepoint: 0x1F993, name: "ZEBRA FACE", aliases: &[] },
        Codepoint { codepoint: 0x1F994, name: "HEDGEHOG", aliases: &[] },
        Codepoint { codepoint: 0x1F995, name: "SAUROPOD", aliases: &[] },
        Codepoint { codepoint: 0x1F996, name: "T-REX", aliases: &[] },
        Codepoint { codepoint: 0x1F997, name: "CRICKET", aliases: &[] },
        Codepoint { codepoint: 0x1F998, name: "KANGAROO", aliases: &[] },
        Codepoint { codepoint: 0x1F999, name: "LLAMA", aliases: &[] },
        Codepoint { codepoint: 0x1F99A, name: "PEACOCK", aliases: &[] },
        Codepoint { codepoint: 0x1F99B, name: "HIPPOPOTAMUS", aliases: &[] },
        Codepoint { codepoint: 0x1F99C, name: "PARROT", aliases: &[] },
        Codepoint { codepoint: 0x1F99D, name: "RACCOON", aliases: &[] },
        Codepoint { codepoint: 0x1F99E, name: "LOBSTER", aliases: &[] },
        Codepoint { codepoint: 0x1F99F, name: "MOSQUITO", aliases: &[] },
        Codepoint { codepoint: 0x1F9A0, name: "MICROBE", aliases: &[] },
        Codepoint { codepoint: 0x1F9A1, name: "BADGER", aliases: &[] },
        Codepoint { codepoint: 0x1F9A2, name: "SWAN", aliases: &[] },
    ];
    assert(v@ =~= codepoint_table_830());
    v
}

pub open spec fn codepoint_table_831() -> Seq<Codepoint> {
    seq![
        Codepoint { codepoint: 0x1F9A3, name: "MAMMOTH", aliases: &[] },
        Codepoint { codepoint: 0x1F9A4, name: "DODO", aliases: &[] },
        Codepoint { codepoint: 0x1F9A5, name: "SLOTH", aliases: &[] },
        Codepoint { codepoint: 0x1F9A6, name: "OTTER", aliases: &[] },
        Codepoint { codepoint: 0x1F9A7, name: "ORANGUTAN", aliases: &[] },
        Codepoint { codepoint: 0x1F9A8, name: "SKUNK", aliases: &[] },
        Codepoint { codepoint: 0x1F9A9, name: "FLAMINGO", aliases: &[] },
        Codepoint { codepoint: 0x1F9AA, name: "OYSTER", aliases: &[] },
        Codepoint { codepoint: 0x1F9AB, name: "BEAVER", aliases: &[] },
        Codepoint { codepoint: 0x1F9AC, name: "BISON", aliases: &[] },
        Codepoint { codepoint: 0x1F9AD, name: "SEAL", aliases: &[] },
        Codepoint { codepoint: 0x1F9AE, name: "GUIDE DOG", aliases: &[] },
        Codepoint { codepoint: 0x1F9AF, name: "PROBING CANE", aliases: &[] },
        Codepoint { codepoint: 0x1F9B0, name: "EMOJI COMPONENT RED HAIR", aliases: &[] },
        Codepoint { codepoint: 0x1F9B1, name: "EMOJI COMPONENT CURLY HAIR", aliases: &[] },
        Codepoint { codepoint: 0x1F9B2, name: "EMOJI COMPONENT BALD", aliases: &[] },
        Codepoint { codepoint: 0x1F9B3, name: "EMOJI COMPONENT WHITE HAIR", aliases: &[] },
        Codepoint { codepoint: 0x1F9B4, name: "BONE", aliases: &[] },
        Codepoint { codepoint: 0x1F9B5, name: "LEG", aliases: &[] },
        Codepoint { codepoint: 0x1F9B6, name: "FOOT", aliases: &[] },
        Codepoint { codepoint: 0x1F9B7, name: "TOOTH", aliases: &[] },
        Codepoint { codepoint: 0x1F9B8, name: "SUPERHERO", aliases: &[] },
        Codepoint { codepoint: 0x1F9B9, name: "SUPERVILLAIN", aliases: &[] },
        Codepoint { codepoint: 0x1F9BA, name: "SAFETY VEST", aliases: &[] },
        Codepoint { codepoint: 0x1F9BB, name: "EAR WITH HEARING AID", aliases: &[] },
        Codepoint { codepoint: 0x1F9BC, name: "MOTORIZED WHEELCHAIR", aliases: &[] },
        Codepoint { codepoint: 0x1F9BD, name: "MANUAL WHEELCHAIR", aliases: &[] },
        Codepoint { codepoint: 0x1F9BE, name: "MECHANICAL ARM", aliases: &[] },
        Codepoint { codepoint: 0x1F9BF, name: "MECHANICAL LEG", aliases: &[] },
        Codepoint { codepoint: 0x1F9C0, name: "CHEESE WEDGE", aliases: &[] },
        Codepoint { codepoint: 0x1F9C1, name: "CUPCAKE", aliases: &[] },
        Codepoint { codepoint: 0x1F9C2, name: "SALT SHAKER", aliases: &[] },
        Codepoint { codepoint: 0x1F9C3, name: "BEVERAGE BOX", aliases: &[] },
        Codepoint { codepoint: 0x1F9C4, name: "GARLIC", aliases: &[] },
        Codepoint { codepoint: 0x1F9C5, name: "ONION", aliases: &[] },
        Codepoint { codepoint: 0x1F9C6, name: "FALAFEL", aliases: &[] },
        Codepoint { codepoint: 0x1F9C7, name: "WAFFLE", aliases: &[] },
        Codepoint { codepoint: 0x1F9C8, name: "BUTTER", aliases: &[] },
        Codepoint { codepoint: 0x1F9C9, name: "MATE DRINK", aliases: &[] },
        Codepoint { codepoint: 0x1F9CA, name: "ICE CUBE", aliases: &[] },
    ]
}

fn all_codepoints_831() -> (v: Vec<Codepoint>)
    ensures
        v@ == codepoint_table_831(),
{
    let v = vec![
        Codepoint { codepoint: 0x1F9A3, name: "MAMMOTH", aliases: &[] },
        Codepoint { codepoint: 0x1F9A4, name: "DODO", aliases: &[] },
        Codepoint { codepoint: 0x1F9A5, name: "SLOTH", aliases: &[] },
        Codepoint { codepoint: 0x1F9A6, name: "OTTER", aliases: &[] },
        Codepoint { codepoint: 0x1F9A7, name: "ORANGUTAN", aliases: &[] },
        Codepoint { codepoint: 0x1F9A8, name: "SKUNK", aliases: &[] },
        Codepoint { codepoint: 0x1F9A9, name: "FLAMINGO", aliases: &[] },
        Codepoint { codepoint: 0x1F9AA, name: "OYSTER", aliases: &[] },
        Codepoint { codepoint: 0x1F9AB, name: "BEAVER", aliases: &[] },
        Codepoint { codepoint: 0x1F9AC, name: "BISON", aliases: &[] },
        Codepoint { codepoint: 0x1F9AD, name: "SEAL", aliases: &[] },
        Codepoint { codepoint: 0x1F9AE, name: "GUIDE DOG", aliases: &[] },
        Codepoint { codepoint: 0x1F9AF, name: "PROBING CANE", aliases: &[] },
        Codepoint { codepoint: 0x1F9B0, name: "EMOJI COMPONENT RED HAIR", aliases: &[] },
        Codepoint { codepoint: 0x1F9B1, name: "EMOJI COMPONENT CURLY HAIR", aliases: &[] },
        Codepoint { codepoint: 0x1F9B2, name: "EMOJI COMPONENT BALD", aliases: &[] },
        Codepoint { codepoint: 0x1F9B3, name: "EMOJI COMPONENT WHITE HAIR", aliases: &[] },
        Codepoint { codepoint: 0x1F9B4, name: "BONE", aliases: &[] },
        Codepoint { codepoint: 0x1F9B5, name: "LEG", aliases: &[] },
        Codepoint { codepoint: 0x1F9B6, name: "FOOT", aliases: &[] },
        Codepoint { codepoint: 0x1F9B7, name: "TOOTH", aliases: &[] },
        Codepoint { codepoint: 0x1F9B8, name: "SUPERHERO", aliases: &[] },
        Codepoint { codepoint: 0x1F9B9, name: "SUPERVILLAIN", aliases: &[] },
        Codepoint { codepoint: 0x1F9BA, name: "SAFETY VEST", aliases: &[] },
        Codepoint { codepoint: 0x1F9BB, name: "EAR WITH HEARING AID", aliases: &[] },
        Codepoint { codepoint: 0x1F9BC, name: "MOTORIZED WHEELCHAIR", aliases: &[] },
        Codepoint { codepoint: 0x1F9BD, name: "MANUAL WHEELCHAIR", aliases: &[] },
        Codepoint { codepoint: 0x1F9BE, name: "MECHANICAL ARM", aliases: &[] },
        Codepoint { codepoint: 0x1F9BF, name: "MECHANICAL LEG", aliases: &[] },
        Codepoint { codepoint: 0x1F9C0, name: "CHEESE WEDGE", aliases: &[] },
        Codepoint { codepoint: 0x1F9C1, name: "CUPCAKE", aliases: &[] },
        Codepoint { codepoint: 0x1F9C2, name: "SALT SHAKER", aliases: &[] },
        Codepoint { codepoint: 0x1F9C3, name: "BEVERAGE BOX", aliases: &[] },
        Codepoint { codepoint: 0x1F9C4, name: "GARLIC", aliases: &[] },
        Codepoint { codepoint: 0x1F9C5, name: "ONION", aliases: &[] },
        Codepoint { codepoint: 0x1F9C6, name: "FALAFEL", aliases: &[] },
        Codepoint { codepoint: 0x1F9C7, name: "WAFFLE", aliases: &[] },
        Codepoint { codepoint: 0x1F9C8, name: "BUTTER", aliases: &[] },
        Codepoint { codepoint: 0x1F9C9, name: "MATE DRINK", aliases: &[] },
        Codepoint { codepoint: 0x1F9CA, name: "ICE CUBE", aliases: &[] },
    ];
    assert(v@ =~= codepoint_table_831());
    v
}

pub open spec fn codepoint_table_832() -> Seq<Codepoint> {
    seq![
        Codepoint { codepoint: 0x1F9CB, name: "BUBBLE TEA", aliases: &[] },
        Codepoint { codepoint: 0x1F9CC, name: "TROLL", aliases: &[] },
        Codepoint { codepoint: 0x1F9CD, name: "STANDING PERSON", aliases: &[] },
        Codepoint { codepoint: 0x1F9CE, name: "KNEELING PERSON", aliases: &[] },
        Codepoint { codepoint: 0x1F9CF, name: "DEAF PERSON", aliases: &[] },
        Codepoint { codepoint: 0x1F9D0, name: "FACE WITH MONOCLE", aliases: &[] },
        Codepoint { codepoint: 0x1F9D1, name: "ADULT", aliases: &[] },
        Codepoint { codepoint: 0x1F9D2, name: "CHILD", aliases: &[] },
        Codepoint { codepoint: 0x1F9D3, name: "OLDER ADULT", aliases: &[] },
        Codepoint { codepoint: 0x1F9D4, name: "BEARDED PERSON", aliases: &[] },
        Codepoint { codepoint: 0x1F9D5, name: "PERSON WITH HEADSCARF", aliases: &[] },
        Codepoint { codepoint: 0x1F9D6, name: "PERSON IN STEAMY ROOM", aliases: &[] },
        Codepoint { codepoint: 0x1F9D7, name: "PERSON CLIMBING", aliases: &[] },
        Codepoint { codepoint: 0x1F9D8, name: "PERSON IN LOTUS POSITION", aliases: &[] },
        Codepoint { codepoint: 0x1F9D9, name: "MAGE", aliases: &[] },
        Codepoint { codepoint: 0x1F9DA, name: "FAIRY", aliases: &[] },
        Codepoint { codepoint: 0x1F9DB, name: "VAMPIRE", aliases: &[] },
        Codepoint { codepoint: 0x1F9DC, name: "MERPERSON", aliases: &[] },
        Codepoint { codepoint: 0x1F9DD, name: "ELF", aliases: &[] },
        Codepoint { codepoint: 0x1F9DE, name: "GENIE", aliases: &[] },
        Codepoint { codepoint: 0x1F9DF, name: "ZOMBIE", aliases: &[] },
        Codepoint { codepoint: 0x1F9E0, name: "BRAIN", aliases: &[] },
        Codepoint { codepoint: 0x1F9E1, name: "ORANGE HEART", aliases: &[] },
        Codepoint { codepoint: 0x1F9E2, name: "BILLED CAP", aliases: &[] },
        Codepoint { codepoint: 0x1F9E3, name: "SCARF", aliases: &[] },
        Codepoint { codepoint: 0x1F9E4, name: "GLOVES", aliases: &[] },
        Codepoint { codepoint: 0x1F9E5, name: "COAT", aliases: &[] },
        Codepoint { codepoint: 0x1F9E6, name: "SOCKS", aliases: &[] },
        Codepoint { codepoint: 0x1F9E7, name: "RED GIFT ENVELOPE", aliases: &[] },
        Codepoint { codepoint: 0x1F9E8, name: "FIRECRACKER", aliases: &[] },
        Codepoint { codepoint: 0x1F9E9, name: "JIGSAW PUZZLE PIECE", aliases: &[] },
        Codepoint { codepoint: 0x1F9EA, name: "TEST TUBE", aliases: &[] },
        Codepoint { codepoint: 0x1F9EB, name: "PETRI DISH", aliases: &[] },
        Codepoint { codepoint: 0x1F9EC, name: "DNA DOUBLE HELIX", aliases: &[] },
        Codepoint { codepoint: 0x1F9ED, name: "COMPASS", aliases: &[] },
        Codepoint { codepoint: 0x1F9EE, name: "ABACUS", aliases: &[] },
        Codepoint { codepoint: 0x1F9EF, name: "FIRE EXTINGUISHER", aliases: &[] },
        Codepoint { codepoint: 0x1F9F0, name: "TOOLBOX", aliases: &[] },
        Codepoint { codepoint: 0x1F9F1, name: "BRICK", aliases: &[] },
        Codepoint { codepoint: 0x1F9F2, name: "MAGNET", aliases: &[] },
    ]
}

fn all_codepoints_832() -> (v: Vec<Codepoint>)
    ensures
        v@ == codepoint_table_832(),
{
    let v = vec![
        Codepoint { codepoint: 0x1F9CB, name: "BUBBLE TEA", aliases: &[] },
        Codepoint { codepoint: 0x1F9CC, name: "TROLL", aliases: &[] },
        Codepoint { codepoint: 0x1F9CD, name: "STANDING PERSON", aliases: &[] },
        Codepoint { codepoint: 0x1F9CE, name: "KNEELING PERSON", aliases: &[] },
        Codepoint { codepoint: 0x1F9CF, name: "DEAF PERSON", aliases: &[] },
        Codepoint { codepoint: 0x1F9D0, name: "FACE WITH MONOCLE", aliases: &[] },
        Codepoint { codepoint: 0x1F9D1, name: "ADULT", aliases: &[] },
        Codepoint { codepoint: 0x1F9D2, name: "CHILD", aliases: &[] },
        Codepoint { codepoint: 0x1F9D3, name: "OLDER ADULT", aliases: &[] },
        Codepoint { codepoint: 0x1F9D4, name: "BEARDED PERSON", aliases: &[] },
        Codepoint { codepoint: 0x1F9D5, name: "PERSON WITH HEADSCARF", aliases: &[] },
        Codepoint { codepoint: 0x1F9D6, name: "PERSON IN STEAMY ROOM", aliases: &[] },
        Codepoint { codepoint: 0x1F9D7, name: "PERSON CLIMBING", aliases: &[] },
        Codepoint { codepoint: 0x1F9D8, name: "PERSON IN LOTUS POSITION", aliases: &[] },
        Codepoint { codepoint: 0x1F9D9, name: "MAGE", aliases: &[] },
        Codepoint { codepoint: 0x1F9DA, name: "FAIRY", aliases: &[] },
        Codepoint { codepoint: 0x1F9DB, name: "VAMPIRE", aliases: &[] },
        Codepoint { codepoint: 0x1F9DC, name: "MERPERSON", aliases: &[] },
        Codepoint { codepoint: 0x1F9DD, name: "ELF", aliases: &[] },
        Codepoint { codepoint: 0x1F9DE, name: "GENIE", aliases: &[] },
        Codepoint { codepoint: 0x1F9DF, name: "ZOMBIE", aliases: &[] },
        Codepoint { codepoint: 0x1F9E0, name: "BRAIN", aliases: &[] },
        Codepoint { codepoint: 0x1F9E1, name: "ORANGE HEART", aliases: &[] },
        Codepoint { codepoint: 0x1F9E2, name: "BILLED CAP", aliases: &[] },
        Codepoint { codepoint: 0x1F9E3, name: "SCARF", aliases: &[] },
        Codepoint { codepoint: 0x1F9E4, name: "GLOVES", aliases: &[] },
        Codepoint { codepoint: 0x1F9E5, name: "COAT", aliases: &[] },
        Codepoint { codepoint: 0x1F9E6, name: "SOCKS", aliases: &[] },
        Codepoint { codepoint: 0x1F9E7, name: "RED GIFT ENVELOPE", aliases: &[] },
        Codepoint { codepoint: 0x1F9E8, name: "FIRECRACKER", aliases: &[] },
        Codepoint { codepoint: 0x1F9E9, name: "JIGSAW PUZZLE PIECE", aliases: &[] },
        Codepoint { codepoint: 0x1F9EA, name: "TEST TUBE", aliases: &[] },
        Codepoint { codepoint: 0x1F9EB, name: "PETRI DISH", aliases: &[] },
        Codepoint { codepoint: 0x1F9EC, name: "DNA DOUBLE HELIX", aliases: &[] },
        Codepoint { codepoint: 0x1F9ED, name: "COMPASS", aliases: &[] },
        Codepoint { codepoint: 0x1F9EE, name: "ABACUS", aliases: &[] },
        Codepoint { codepoint: 0x1F9EF, name: "FIRE EXTINGUISHER", aliases: &[] },
        Codepoint { codepoint: 0x1F9F0, name: "TOOLBOX", aliases: &[] },
        Codepoint { codepoint: 0x1F9F1, name: "BRICK", aliases: &[] },
        Codepoint { codepoint: 0x1F9F2, name: "MAGNET", aliases: &[] },
    ];
    assert(v@ =~= codepoint_table_832());
    v
}

pub open spec fn codepoint_table_833() -> Seq<Codepoint> {
    seq![
        Codepoint { codepoint: 0x1F9F3, name: "LUGGAGE", aliases: &[] },
        Codepoint { codepoint: 0x1F9F4, name: "LOTION BOTTLE", aliases: &[] },
        Codepoint { codepoint: 0x1F9F5, name: "SPOOL OF THREAD", aliases: &[] },
        Codepoint { codepoint: 0x1F9F6, name: "BALL OF YARN", aliases: &[] },
        Codepoint { codepoint: 0x1F9F7, name: "SAFETY PIN", aliases: &[] },
        Codepoint { codepoint: 0x1F9F8, name: "TEDDY BEAR", aliases: &[] },
        Codepoint { codepoint: 0x1F9F9, name: "BROOM", aliases: &[] },
        Codepoint { codepoint: 0x1F9FA, name: "BASKET", aliases: &[] },
        Codepoint { codepoint: 0x1F9FB, name: "ROLL OF PAPER", aliases: &[] },
        Codepoint { codepoint: 0x1F9FC, name: "BAR OF SOAP", aliases: &[] },
        Codepoint { codepoint: 0x1F9FD, name: "SPONGE", aliases: &[] },
        Codepoint { codepoint: 0x1F9FE, name: "RECEIPT", aliases: &[] },
        Codepoint { codepoint: 0x1F9FF, name: "NAZAR AMULET", aliases: &[] },
        Codepoint { codepoint: 0x1FA00, name: "NEUTRAL CHESS KING", aliases: &[] },
        Codepoint { codepoint: 0x1FA01, name: "NEUTRAL CHESS QUEEN", aliases: &[] },
        Codepoint { codepoint: 0x1FA02, name: "NEUTRAL CHESS ROOK", aliases: &[] },
        Codepoint { codepoint: 0x1FA03, name: "NEUTRAL CHESS BISHOP", aliases: &[] },
        Codepoint { codepoint: 0x1FA04, name: "NEUTRAL CHESS KNIGHT", aliases: &[] },
        Codepoint { codepoint: 0x1FA05, name: "NEUTRAL CHESS PAWN", aliases: &[] },
        Codepoint { codepoint: 0x1FA06, name: "WHITE CHESS KNIGHT ROTATED FORTY-FIVE DEGREES", aliases: &[] },
        Codepoint { codepoint: 0x1FA07, name: "BLACK CHESS KNIGHT ROTATED FORTY-FIVE DEGREES", aliases: &[] },
        Codepoint { codepoint: 0x1FA08, name: "NEUTRAL CHESS KNIGHT ROTATED FORTY-FIVE DEGREES", aliases: &[] },
        Codepoint { codepoint: 0x1FA09, name: "WHITE CHESS KING ROTATED NINETY DEGREES", aliases: &[] },
        Codepoint { codepoint: 0x1FA0A, name: "WHITE CHESS QUEEN ROTATED NINETY DEGREES", aliases: &[] },
        Codepoint { codepoint: 0x1FA0B, name: "WHITE CHESS ROOK ROTATED NINETY DEGREES", aliases: &[] },
        Codepoint { codepoint: 0x1FA0C, name: "WHITE CHESS BISHOP ROTATED NINETY DEGREES", aliases: &[] },
        Codepoint { codepoint: 0x1FA0D, name: "WHITE CHESS KNIGHT ROTATED NINETY DEGREES", aliases: &[] },
        Codepoint { codepoint: 0x1FA0E, name: "WHITE CHESS PAWN ROTATED NINETY DEGREES", aliases: &[] },
        Codepoint { codepoint: 0x1FA0F, name: "BLACK CHESS KING ROTATED NINETY DEGREES", aliases: &[] },
        Codepoint { codepoint: 0x1FA10, name: "BLACK CHESS QUEEN ROTATED NINETY DEGREES", aliases: &[] },
        Codepoint { codepoint: 0x1FA11, name: "BLACK CHESS ROOK ROTATED NINETY DEGREES", aliases: &[] },
        Codepoint { codepoint: 0x1FA12, name: "BLACK CHESS BISHOP ROTATED NINETY DEGREES", aliases: &[] },
        Codepoint { codepoint: 0x1FA13, name: "BLACK CHESS KNIGHT ROTATED NINETY DEGREES", aliases: &[] },
        Codepoint { codepoint: 0x1FA14, name: "BLACK CHESS PAWN ROTATED NINETY DEGREES", aliases: &[] },
        Codepoint { codepoint: 0x1FA15, name: "NEUTRAL CHESS KING ROTATED NINETY DEGREES", aliases: &[] },
        Codepoint { codepoint: 0x1FA16, name: "NEUTRAL CHESS QUEEN ROTATED NINETY DEGREES", aliases: &[] },
        Codepoint { codepoint: 0x1FA17, name: "NEUTRAL CHESS ROOK ROTATED NINETY DEGREES", aliases: &[] },
        Codepoint { codepoint: 0x1FA18, name: "NEUTRAL CHESS BISHOP ROTATED NINETY DEGREES", aliases: &[] },
        Codepoint { codepoint: 0x1FA19, name: "NEUTRAL CHESS KNIGHT ROTATED NINETY DEGREES", aliases: &[] },
        Codepoint { codepoint: 0x1FA1A, name: "NEUTRAL CHESS PAWN ROTATED NINETY DEGREES", aliases: &[] },
    ]
}

fn all_codepoints_833() -> (v: Vec<Codepoint>)
    ensures
        v@ == codepoint_table_833(),
{
    let v = vec![
        Codepoint { codepoint: 0x1F9F3, name: "LUGGAGE", aliases: &[] },
        Codepoint { codepoint: 0x1F9F4, name: "LOTION BOTTLE", aliases: &[] },
        Codepoint { codepoint: 0x1F9F5, name: "SPOOL OF THREAD", aliases: &[] },
        Codepoint { codepoint: 0x1F9F6, name: "BALL OF YARN", aliases: &[] },
        Codepoint { codepoint: 0x1F9F7, name: "SAFETY PIN", aliases: &[] },
        Codepoint { codepoint: 0x1F9F8, name: "TEDDY BEAR", aliases: &[] },
        Codepoint { codepoint: 0x1F9F9, name: "BROOM", aliases: &[] },
        Codepoint { codepoint: 0x1F9FA, name: "BASKET", aliases: &[] },
        Codepoint { codepoint: 0x1F9FB, name: "ROLL OF PAPER", aliases: &[] },
        Codepoint { codepoint: 0x1F9FC, name: "BAR OF SOAP", aliases: &[] },
        Codepoint { codepoint: 0x1F9FD, name: "SPONGE", aliases: &[] },
        Codepoint { codepoint: 0x1F9FE, name: "RECEIPT", aliases: &[] },
        Codepoint { codepoint: 0x1F9FF, name: "NAZAR AMULET", aliases: &[] },
        Codepoint { codepoint: 0x1FA00, name: "NEUTRAL CHESS KING", aliases: &[] },
        Codepoint { codepoint: 0x1FA01, name: "NEUTRAL CHESS QUEEN", aliases: &[] },
        Codepoint { codepoint: 0x1FA02, name: "NEUTRAL CHESS ROOK", aliases: &[] },
        Codepoint { codepoint: 0x1FA03, name: "NEUTRAL CHESS BISHOP", aliases: &[] },
        Codepoint { codepoint: 0x1FA04, name: "NEUTRAL CHESS KNIGHT", aliases: &[] },
        Codepoint { codepoint: 0x1FA05, name: "NEUTRAL CHESS PAWN", aliases: &[] },
        Codepoint { codepoint: 0x1FA06, name: "WHITE CHESS KNIGHT ROTATED FORTY-FIVE DEGREES", aliases: &[] },
        Codepoint { codepoint: 0x1FA07, name: "BLACK CHESS KNIGHT ROTATED FORTY-FIVE DEGREES", aliases: &[] },
        Codepoint { codepoint: 0x1FA08, name: "NEUTRAL CHESS KNIGHT ROTATED FORTY-FIVE DEGREES", aliases: &[] },
        Codepoint { codepoint: 0x1FA09, name: "WHITE CHESS KING ROTATED NINETY DEGREES", aliases: &[] },
        Codepoint { codepoint: 0x1FA0A, name: "WHITE CHESS QUEEN ROTATED NINETY DEGREES", aliases: &[] },
        Codepoint { codepoint: 0x1FA0B, name: "WHITE CHESS ROOK ROTATED NINETY DEGREES", aliases: &[] },
        Codepoint { codepoint: 0x1FA0C, name: "WHITE CHESS BISHOP ROTATED NINETY DEGREES", aliases: &[] },
        Codepoint { codepoint: 0x1FA0D, name: "WHITE CHESS KNIGHT ROTATED NINETY DEGREES", aliases: &[] },
        Codepoint { codepoint: 0x1FA0E, name: "WHITE CHESS PAWN ROTATED NINETY DEGREES", aliases: &[] },
        Codepoint { codepoint: 0x1FA0F, name: "BLACK CHESS KING ROTATED NINETY DEGREES", aliases: &[] },
        Codepoint { codepoint: 0x1FA10, name: "BLACK CHESS QUEEN ROTATED NINETY DEGREES", aliases: &[] },
        Codepoint { codepoint: 0x1FA11, name: "BLACK CHESS ROOK ROTATED NINETY DEGREES", aliases: &[] },
        Codepoint { codepoint: 0x1FA12, name: "BLACK CHESS BISHOP ROTATED NINETY DEGREES", aliases: &[] },
        Codepoint { codepoint: 0x1FA13, name: "BLACK CHESS KNIGHT ROTATED NINETY DEGREES", aliases: &[] },
        Codepoint { codepoint: 0x1FA14, name: "BLACK CHESS PAWN ROTATED NINETY DEGREES", aliases: &[] },
        Codepoint { codepoint: 0x1FA15, name: "NEUTRAL CHESS KING ROTATED NINETY DEGREES", aliases: &[] },
        Codepoint { codepoint: 0x1FA16, name: "NEUTRAL CHESS QUEEN ROTATED NINETY DEGREES", aliases: &[] },
        Codepoint { codepoint: 0x1FA17, name: "NEUTRAL CHESS ROOK ROTATED NINETY DEGREES", aliases: &[] },
        Codepoint { codepoint: 0x1FA18, name: "NEUTRAL CHESS BISHOP ROTATED NINETY DEGREES", aliases: &[] },
        Codepoint { codepoint: 0x1FA19, name: "NEUTRAL CHESS KNIGHT ROTATED NINETY DEGREES", aliases: &[] },
        Codepoint { codepoint: 0x1FA1A, name: "NEUTRAL CHESS PAWN ROTATED NINETY DEGREES", aliases: &[] },
    ];
    assert(v@ =~= codepoint_table_833());
    v
}

pub open spec fn codepoint_table_834() -> Seq<Codepoint> {
    seq![
        Codepoint { codepoint: 0x1FA1B, name: "WHITE CHESS KNIGHT ROTATED ONE HUNDRED THIRTY-FIVE DEGREES", aliases: &[] },
        Codepoint { codepoint: 0x1FA1C, name: "BLACK CHESS KNIGHT ROTATED ONE HUNDRED THIRTY-FIVE DEGREES", aliases: &[] },
        Codepoint { codepoint: 0x1FA1D, name: "NEUTRAL CHESS KNIGHT ROTATED ONE HUNDRED THIRTY-FIVE DEGREES", aliases: &[] },
        Codepoint { codepoint: 0x1FA1E, name: "WHITE CHESS TURNED KING", aliases: &[] },
        Codepoint { codepoint: 0x1FA1F, name: "WHITE CHESS TURNED QUEEN", aliases: &[] },
        Codepoint { codepoint: 0x1FA20, name: "WHITE CHESS TURNED ROOK", aliases: &[] },
        Codepoint { codepoint: 0x1FA21, name: "WHITE CHESS TURNED BISHOP", aliases: &[] },
        Codepoint { codepoint: 0x1FA22, name: "WHITE CHESS TURNED KNIGHT", aliases: &[] },
        Codepoint { codepoint: 0x1FA23, name: "WHITE CHESS TURNED PAWN", aliases: &[] },
        Codepoint { codepoint: 0x1FA24, name: "BLACK CHESS TURNED KING", aliases: &[] },
        Codepoint { codepoint: 0x1FA25, name: "BLACK CHESS TURNED QUEEN", aliases: &[] },
        Codepoint { codepoint: 0x1FA26, name: "BLACK CHESS TURNED ROOK", aliases: &[] },
        Codepoint { codepoint: 0x1FA27, name: "BLACK CHESS TURNED BISHOP", aliases: &[] },
        Codepoint { codepoint: 0x1FA28, name: "BLACK CHESS TURNED KNIGHT", aliases: &[] },
        Codepoint { codepoint: 0x1FA29, name: "BLACK CHESS TURNED PAWN", aliases: &[] },
        Codepoint { codepoint: 0x1FA2A, name: "NEUTRAL CHESS TURNED KING", aliases: &[] },
        Codepoint { codepoint: 0x1FA2B, name: "NEUTRAL CHESS TURNED QUEEN", aliases: &[] },
        Codepoint { codepoint: 0x1FA2C, name: "NEUTRAL CHESS TURNED ROOK", aliases: &[] },
        Codepoint { codepoint: 0x1FA2D, name: "NEUTRAL CHESS TURNED BISHOP", aliases: &[] },
        Codepoint { codepoint: 0x1FA2E, name: "NEUTRAL CHESS TURNED KNIGHT", aliases: &[] },
        Codepoint { codepoint: 0x1FA2F, name: "NEUTRAL CHESS TURNED PAWN", aliases: &[] },
        Codepoint { codepoint: 0x1FA30, name: "WHITE CHESS KNIGHT ROTATED TWO HUNDRED TWENTY-FIVE DEGREES", aliases: &[] },
        Codepoint { codepoint: 0x1FA31, name: "BLACK CHESS KNIGHT ROTATED TWO HUNDRED TWENTY-FIVE DEGREES", aliases: &[] },
        Codepoint { codepoint: 0x1FA32, name: "NEUTRAL CHESS KNIGHT ROTATED TWO HUNDRED TWENTY-FIVE DEGREES", aliases: &[] },
        Codepoint { codepoint: 0x1FA33, name: "WHITE CHESS KING ROTATED TWO HUNDRED SEVENTY DEGREES", aliases: &[] },
        Codepoint { codepoint: 0x1FA34, name: "WHITE CHESS QUEEN ROTATED TWO HUNDRED SEVENTY DEGREES", aliases: &[] },
        Codepoint { codepoint: 0x1FA35, name: "WHITE CHESS ROOK ROTATED TWO HUNDRED SEVENTY DEGREES", aliases: &[] },
        Codepoint { codepoint: 0x1FA36, name: "WHITE CHESS BISHOP ROTATED TWO HUNDRED SEVENTY DEGREES", aliases: &[] },
        Codepoint { codepoint: 0x1FA37, name: "WHITE CHESS KNIGHT ROTATED TWO HUNDRED SEVENTY DEGREES", aliases: &[] },
        Codepoint { codepoint: 0x1FA38, name: "WHITE CHESS PAWN ROTATED TWO HUNDRED SEVENTY DEGREES", aliases: &[] },
        Codepoint { codepoint: 0x1FA39, name: "BLACK CHESS KING ROTATED TWO HUNDRED SEVENTY DEGREES", aliases: &[] },
        Codepoint { codepoint: 0x1FA3A, name: "BLACK CHESS QUEEN ROTATED TWO HUNDRED SEVENTY DEGREES", aliases: &[] },
        Codepoint { codepoint: 0x1FA3B, name: "BLACK CHESS ROOK ROTATED TWO HUNDRED SEVENTY DEGREES", aliases: &[] },
        Codepoint { codepoint: 0x1FA3C, name: "BLACK CHESS BISHOP ROTATED TWO HUNDRED SEVENTY DEGREES", aliases: &[] },
        Codepoint { codepoint: 0x1FA3D, name: "BLACK CHESS KNIGHT ROTATED TWO HUNDRED SEVENTY DEGREES", aliases: &[] },
        Codepoint { codepoint: 0x1FA3E, name: "BLACK CHESS PAWN ROTATED TWO HUNDRED SEVENTY DEGREES", aliases: &[] },
        Codepoint { codepoint: 0x1FA3F, name: "NEUTRAL CHESS KING ROTATED TWO HUNDRED SEVENTY DEGREES", aliases: &[] },
        Codepoint { codepoint: 0x1FA40, name: "NEUTRAL CHESS QUEEN ROTATED TWO HUNDRED SEVENTY DEGREES", aliases: &[] },
        Codepoint { codepoint: 0x1FA41, name: "NEUTRAL CHESS ROOK ROTATED TWO HUNDRED SEVENTY DEGREES", aliases: &[] },
        Codepoint { codepoint: 0x1FA42, name: "NEUTRAL CHESS BISHOP ROTATED TWO HUNDRED SEVENTY DEGREES", aliases: &[] },
    ]
}

fn all_codepoints_834() -> (v: Vec<Codepoint>)
    ensures
        v@ == codepoint_table_834(),
{
    let v = vec![
        Codepoint { codepoint: 0x1FA1B, name: "WHITE CHESS KNIGHT ROTATED ONE HUNDRED THIRTY-FIVE DEGREES", aliases: &[] },
        Codepoint { codepoint: 0x1FA1C, name: "BLACK CHESS KNIGHT ROTATED ONE HUNDRED THIRTY-FIVE DEGREES", aliases: &[] },
        Codepoint { codepoint: 0x1FA1D, name: "NEUTRAL CHESS KNIGHT ROTATED ONE HUNDRED THIRTY-FIVE DEGREES", aliases: &[] },
        Codepoint { codepoint: 0x1FA1E, name: "WHITE CHESS TURNED KING", aliases: &[] },
        Codepoint { codepoint: 0x1FA1F, name: "WHITE CHESS TURNED QUEEN", aliases: &[] },
        Codepoint { codepoint: 0x1FA20, name: "WHITE CHESS TURNED ROOK", aliases: &[] },
        Codepoint { codepoint: 0x1FA21, name: "WHITE CHESS TURNED BISHOP", aliases: &[] },
        Codepoint { codepoint: 0x1FA22, name: "WHITE CHESS TURNED KNIGHT", aliases: &[] },
        Codepoint { codepoint: 0x1FA23, name: "WHITE CHESS TURNED PAWN", aliases: &[] },
        Codepoint { codepoint: 0x1FA24, name: "BLACK CHESS TURNED KING", aliases: &[] },
        Codepoint { codepoint: 0x1FA25, name: "BLACK CHESS TURNED QUEEN", aliases: &[] },
        Codepoint { codepoint: 0x1FA26, name: "BLACK CHESS TURNED ROOK", aliases: &[] },
        Codepoint { codepoint: 0x1FA27, name: "BLACK CHESS TURNED BISHOP", aliases: &[] },
        Codepoint { codepoint: 0x1FA28, name: "BLACK CHESS TURNED KNIGHT", aliases: &[] },
        Codepoint { codepoint: 0x1FA29, name: "BLACK CHESS TURNED PAWN", aliases: &[] },
        Codepoint { codepoint: 0x1FA2A, name: "NEUTRAL CHESS TURNED KING", aliases: &[] },
        Codepoint { codepoint: 0x1FA2B, name: "NEUTRAL CHESS TURNED QUEEN", aliases: &[] },
        Codepoint { codepoint: 0x1FA2C, name: "NEUTRAL CHESS TURNED ROOK", aliases: &[] },
        Codepoint { codepoint: 0x1FA2D, name: "NEUTRAL CHESS TURNED BISHOP", aliases: &[] },
        Codepoint { codepoint: 0x1FA2E, name: "NEUTRAL CHESS TURNED KNIGHT", aliases: &[] },
        Codepoint { codepoint: 0x1FA2F, name: "NEUTRAL CHESS TURNED PAWN", aliases: &[] },
        Codepoint { codepoint: 0x1FA30, name: "WHITE CHESS KNIGHT ROTATED TWO HUNDRED TWENTY-FIVE DEGREES", aliases: &[] },
        Codepoint { codepoint: 0x1FA31, name: "BLACK CHESS KNIGHT ROTATED TWO HUNDRED TWENTY-FIVE DEGREES", aliases: &[] },
        Codepoint { codepoint: 0x1FA32, name: "NEUTRAL CHESS KNIGHT ROTATED TWO HUNDRED TWENTY-FIVE DEGREES", aliases: &[] },
        Codepoint { codepoint: 0x1FA33, name: "WHITE CHESS KING ROTATED TWO HUNDRED SEVENTY DEGREES", aliases: &[] },
        Codepoint { codepoint: 0x1FA34, name: "WHITE CHESS QUEEN ROTATED TWO HUNDRED SEVENTY DEGREES", aliases: &[] },
        Codepoint { codepoint: 0x1FA35, name: "WHITE CHESS ROOK ROTATED TWO HUNDRED SEVENTY DEGREES", aliases: &[] },
        Codepoint { codepoint: 0x1FA36, name: "WHITE CHESS BISHOP ROTATED TWO HUNDRED SEVENTY DEGREES", aliases: &[] },
        Codepoint { codepoint: 0x1FA37, name: "WHITE CHESS KNIGHT ROTATED TWO HUNDRED SEVENTY DEGREES", aliases: &[] },
        Codepoint { codepoint: 0x1FA38, name: "WHITE CHESS PAWN ROTATED TWO HUNDRED SEVENTY DEGREES", aliases: &[] },
        Codepoint { codepoint: 0x1FA39, name: "BLACK CHESS KING ROTATED TWO HUNDRED SEVENTY DEGREES", aliases: &[] },
        Codepoint { codepoint: 0x1FA3A, name: "BLACK CHESS QUEEN ROTATED TWO HUNDRED SEVENTY DEGREES", aliases: &[] },
        Codepoint { codepoint: 0x1FA3B, name: "BLACK CHESS ROOK ROTATED TWO HUNDRED SEVENTY DEGREES", aliases: &[] },
        Codepoint { codepoint: 0x1FA3C, name: "BLACK CHESS BISHOP ROTATED TWO HUNDRED SEVENTY DEGREES", aliases: &[] },
        Codepoint { codepoint: 0x1FA3D, name: "BLACK CHESS KNIGHT ROTATED TWO HUNDRED SEVENTY DEGREES", aliases: &[] },
        Codepoint { codepoint: 0x1FA3E, name: "BLACK CHESS PAWN ROTATED TWO HUNDRED SEVENTY DEGREES", aliases: &[] },
        Codepoint { codepoint: 0x1FA3F, name: "NEUTRAL CHESS KING ROTATED TWO HUNDRED SEVENTY DEGREES", aliases: &[] },
        Codepoint { codepoint: 0x1FA40, name: "NEUTRAL CHESS QUEEN ROTATED TWO HUNDRED SEVENTY DEGREES", aliases: &[] },
        Codepoint { codepoint: 0x1FA41, name: "NEUTRAL CHESS ROOK ROTATED TWO HUNDRED SEVENTY DEGREES", aliases: &[] },
        Codepoint { codepoint: 0x1FA42, name: "NEUTRAL CHESS BISHOP ROTATED TWO HUNDRED SEVENTY DEGREES", aliases: &[] },
    ];
    assert(v@ =~= codepoint_table_834());
    v
}

pub open spec fn codepoint_table_835() -> Seq<Codepoint> {
    seq![
        Codepoint { codepoint: 0x1FA43, name: "NEUTRAL CHESS KNIGHT ROTATED TWO HUNDRED SEVENTY DEGREES", aliases: &[] },
        Codepoint { codepoint: 0x1FA44, name: "NEUTRAL CHESS PAWN ROTATED TWO HUNDRED SEVENTY DEGREES", aliases: &[] },
        Codepoint { codepoint: 0x1FA45, name: "WHITE CHESS KNIGHT ROTATED THREE HUNDRED FIFTEEN DEGREES", aliases: &[] },
        Codepoint { codepoint: 0x1FA46, name: "BLACK CHESS KNIGHT ROTATED THREE HUNDRED FIFTEEN DEGREES", aliases: &[] },
        Codepoint { codepoint: 0x1FA47, name: "NEUTRAL CHESS KNIGHT ROTATED THREE HUNDRED FIFTEEN DEGREES", aliases: &[] },
        Codepoint { codepoint: 0x1FA48, name: "WHITE CHESS EQUIHOPPER", aliases: &[] },
        Codepoint { codepoint: 0x1FA49, name: "BLACK CHESS EQUIHOPPER", aliases: &[] },
        Codepoint { codepoint: 0x1FA4A, name: "NEUTRAL CHESS EQUIHOPPER", aliases: &[] },
        Codepoint { codepoint: 0x1FA4B, name: "WHITE CHESS EQUIHOPPER ROTATED NINETY DEGREES", aliases: &[] },
        Codepoint { codepoint: 0x1FA4C, name: "BLACK CHESS EQUIHOPPER ROTATED NINETY DEGREES", aliases: &[] },
        Codepoint { codepoint: 0x1FA4D, name: "NEUTRAL CHESS EQUIHOPPER ROTATED NINETY DEGREES", aliases: &[] },
        Codepoint { codepoint: 0x1FA4E, name: "WHITE CHESS KNIGHT-QUEEN", aliases: &[] },
        Codepoint { codepoint: 0x1FA4F, name: "WHITE CHESS KNIGHT-ROOK", aliases: &[] },
        Codepoint { codepoint: 0x1FA50, name: "WHITE CHESS KNIGHT-BISHOP", aliases: &[] },
        Codepoint { codepoint: 0x1FA51, name: "BLACK CHESS KNIGHT-QUEEN", aliases: &[] },
        Codepoint { codepoint: 0x1FA52, name: "BLACK CHESS KNIGHT-ROOK", aliases: &[] },
        Codepoint { codepoint: 0x1FA53, name: "BLACK CHESS KNIGHT-BISHOP", aliases: &[] },
        Codepoint { codepoint: 0x1FA60, name: "XIANGQI RED GENERAL", aliases: &[] },
        Codepoint { codepoint: 0x1FA61, name: "XIANGQI RED MANDARIN", aliases: &[] },
        Codepoint { codepoint: 0x1FA62, name: "XIANGQI RED ELEPHANT", aliases: &[] },
        Codepoint { codepoint: 0x1FA63, name: "XIANGQI RED HORSE", aliases: &[] },
        Codepoint { codepoint: 0x1FA64, name: "XIANGQI RED CHARIOT", aliases: &[] },
        Codepoint { codepoint: 0x1FA65, name: "XIANGQI RED CANNON", aliases: &[] },
        Codepoint { codepoint: 0x1FA66, name: "XIANGQI RED SOLDIER", aliases: &[] },
        Codepoint { codepoint: 0x1FA67, name: "XIANGQI BLACK GENERAL", aliases: &[] },
        Codepoint { codepoint: 0x1FA68, name: "XIANGQI BLACK MANDARIN", aliases: &[] },
        Codepoint { codepoint: 0x1FA69, name: "XIANGQI BLACK ELEPHANT", aliases: &[] },
        Codepoint { codepoint: 0x1FA6A, name: "XIANGQI BLACK HORSE", aliases: &[] },
        Codepoint { codepoint: 0x1FA6B, name: "XIANGQI BLACK CHARIOT", aliases: &[] },
        Codepoint { codepoint: 0x1FA6C, name: "XIANGQI BLACK CANNON", aliases: &[] },
        Codepoint { codepoint: 0x1FA6D, name: "XIANGQI BLACK SOLDIER", aliases: &[] },
        Codepoint { codepoint: 0x1FA70, name: "BALLET SHOES", aliases: &[] },
        Codepoint { codepoint: 0x1FA71, name: "ONE-PIECE SWIMSUIT", aliases: &[] },
        Codepoint { codepoint: 0x1FA72, name: "BRIEFS", aliases: &[] },
        Codepoint { codepoint: 0x1FA73, name: "SHORTS", aliases: &[] },
        Codepoint { codepoint: 0x1FA74, name: "THONG SANDAL", aliases: &[] },
        Codepoint { codepoint: 0x1FA78, name: "DROP OF BLOOD", aliases: &[] },
        Codepoint { codepoint: 0x1FA79, name: "ADHESIVE BANDAGE", aliases: &[] },
        Codepoint { codepoint: 0x1FA7A, name: "STETHOSCOPE", aliases: &[] },
        Codepoint { codepoint: 0x1FA7B, name: "X-RAY", aliases: &[] },
    ]
}

fn all_codepoints_835() -> (v: Vec<Codepoint>)
    ensures
        v@ == codepoint_table_835(),
{
    let v = vec![
        Codepoint { codepoint: 0x1FA43, name: "NEUTRAL CHESS KNIGHT ROTATED TWO HUNDRED SEVENTY DEGREES", aliases: &[] },
        Codepoint { codepoint: 0x1FA44, name: "NEUTRAL CHESS PAWN ROTATED TWO HUNDRED SEVENTY DEGREES", aliases: &[] },
        Codepoint { codepoint: 0x1FA45, name: "WHITE CHESS KNIGHT ROTATED THREE HUNDRED FIFTEEN DEGREES", aliases: &[] },
        Codepoint { codepoint: 0x1FA46, name: "BLACK CHESS KNIGHT ROTATED THREE HUNDRED FIFTEEN DEGREES", aliases: &[] },
        Codepoint { codepoint: 0x1FA47, name: "NEUTRAL CHESS KNIGHT ROTATED THREE HUNDRED FIFTEEN DEGREES", aliases: &[] },
        Codepoint { codepoint: 0x1FA48, name: "WHITE CHESS EQUIHOPPER", aliases: &[] },
        Codepoint { codepoint: 0x1FA49, name: "BLACK CHESS EQUIHOPPER", aliases: &[] },
        Codepoint { codepoint: 0x1FA4A, name: "NEUTRAL CHESS EQUIHOPPER", aliases: &[] },
        Codepoint { codepoint: 0x1FA4B, name: "WHITE CHESS EQUIHOPPER ROTATED NINETY DEGREES", aliases: &[] },
        Codepoint { codepoint: 0x1FA4C, name: "BLACK CHESS EQUIHOPPER ROTATED NINETY DEGREES", aliases: &[] },
        Codepoint { codepoint: 0x1FA4D, name: "NEUTRAL CHESS EQUIHOPPER ROTATED NINETY DEGREES", aliases: &[] },
        Codepoint { codepoint: 0x1FA4E, name: "WHITE CHESS KNIGHT-QUEEN", aliases: &[] },
        Codepoint { codepoint: 0x1FA4F, name: "WHITE CHESS KNIGHT-ROOK", aliases: &[] },
        Codepoint { codepoint: 0x1FA50, name: "WHITE CHESS KNIGHT-BISHOP", aliases: &[] },
        Codepoint { codepoint: 0x1FA51, name: "BLACK CHESS KNIGHT-QUEEN", aliases: &[] },
        Codepoint { codepoint: 0x1FA52, name: "BLACK CHESS KNIGHT-ROOK", aliases: &[] },
        Codepoint { codepoint: 0x1FA53, name: "BLACK CHESS KNIGHT-BISHOP", aliases: &[] },
        Codepoint { codepoint: 0x1FA60, name: "XIANGQI RED GENERAL", aliases: &[] },
        Codepoint { codepoint: 0x1FA61, name: "XIANGQI RED MANDARIN", aliases: &[] },
        Codepoint { codepoint: 0x1FA62, name: "XIANGQI RED ELEPHANT", aliases: &[] },
        Codepoint { codepoint: 0x1FA63, name: "XIANGQI RED HORSE", aliases: &[] },
        Codepoint { codepoint: 0x1FA64, name: "XIANGQI RED CHARIOT", aliases: &[] },
        Codepoint { codepoint: 0x1FA65, name: "XIANGQI RED CANNON", aliases: &[] },
        Codepoint { codepoint: 0x1FA66, name: "XIANGQI RED SOLDIER", aliases: &[] },
        Codepoint { codepoint: 0x1FA67, name: "XIANGQI BLACK GENERAL", aliases: &[] },
        Codepoint { codepoint: 0x1FA68, name: "XIANGQI BLACK MANDARIN", aliases: &[] },
        Codepoint { codepoint: 0x1FA69, name: "XIANGQI BLACK ELEPHANT", aliases: &[] },
        Codepoint { codepoint: 0x1FA6A, name: "XIANGQI BLACK HORSE", aliases: &[] },
        Codepoint { codepoint: 0x1FA6B, name: "XIANGQI BLACK CHARIOT", aliases: &[] },
        Codepoint { codepoint: 0x1FA6C, name: "XIANGQI BLACK CANNON", aliases: &[] },
        Codepoint { codepoint: 0x1FA6D, name: "XIANGQI BLACK SOLDIER", aliases: &[] },
        Codepoint { codepoint: 0x1FA70, name: "BALLET SHOES", aliases: &[] },
        Codepoint { codepoint: 0x1FA71, name: "ONE-PIECE SWIMSUIT", aliases: &[] },
        Codepoint { codepoint: 0x1FA72, name: "BRIEFS", aliases: &[] },
        Codepoint { codepoint: 0x1FA73, name: "SHORTS", aliases: &[] },
        Codepoint { codepoint: 0x1FA74, name: "THONG SANDAL", aliases: &[] },
        Codepoint { codepoint: 0x1FA78, name: "DROP OF BLOOD", aliases: &[] },
        Codepoint { codepoint: 0x1FA79, name: "ADHESIVE BANDAGE", aliases: &[] },
        Codepoint { codepoint: 0x1FA7A, name: "STETHOSCOPE", aliases: &[] },
        Codepoint { codepoint: 0x1FA7B, name: "X-RAY", aliases: &[] },
    ];
    assert(v@ =~= codepoint_table_835());
    v
}

pub open spec fn codepoint_table_836() -> Seq<Codepoint> {
    seq![
        Codepoint { codepoint: 0x1FA7C, name: "CRUTCH", aliases: &[] },
        Codepoint { codepoint: 0x1FA80, name: "YO-YO", aliases: &[] },
        Codepoint { codepoint: 0x1FA81, name: "KITE", aliases: &[] },
        Codepoint { codepoint: 0x1FA82, name: "PARACHUTE", aliases: &[] },
        Codepoint { codepoint: 0x1FA83, name: "BOOMERANG", aliases: &[] },
        Codepoint { codepoint: 0x1FA84, name: "MAGIC WAND", aliases: &[] },
        Codepoint { codepoint: 0x1FA85, name: "PINATA", aliases: &[] },
        Codepoint { codepoint: 0x1FA86, name: "NESTING DOLLS", aliases: &[] },
        Codepoint { codepoint: 0x1FA90, name: "RINGED PLANET", aliases: &[] },
        Codepoint { codepoint: 0x1FA91, name: "CHAIR", aliases: &[] },
        Codepoint { codepoint: 0x1FA92, name: "RAZOR", aliases: &[] },
        Codepoint { codepoint: 0x1FA93, name: "AXE", aliases: &[] },
        Codepoint { codepoint: 0x1FA94, name: "DIYA LAMP", aliases: &[] },
        Codepoint { codepoint: 0x1FA95, name: "BANJO", aliases: &[] },
        Codepoint { codepoint: 0x1FA96, name: "MILITARY HELMET", aliases: &[] },
        Codepoint { codepoint: 0x1FA97, name: "ACCORDION", aliases: &[] },
        Codepoint { codepoint: 0x1FA98, name: "LONG DRUM", aliases: &[] },
        Codepoint { codepoint: 0x1FA99, name: "COIN", aliases: &[] },
        Codepoint { codepoint: 0x1FA9A, name: "CARPENTRY SAW", aliases: &[] },
        Codepoint { codepoint: 0x1FA9B, name: "SCREWDRIVER", aliases: &[] },
        Codepoint { codepoint: 0x1FA9C, name: "LADDER", aliases: &[] },
        Codepoint { codepoint: 0x1FA9D, name: "HOOK", aliases: &[] },
        Codepoint { codepoint: 0x1FA9E, name: "MIRROR", aliases: &[] },
        Codepoint { codepoint: 0x1FA9F, name: "WINDOW", aliases: &[] },
        Codepoint { codepoint: 0x1FAA0, name: "PLUNGER", aliases: &[] },
        Codepoint { codepoint: 0x1FAA1, name: "SEWING NEEDLE", aliases: &[] },
        Codepoint { codepoint: 0x1FAA2, name: "KNOT", aliases: &[] },
        Codepoint { codepoint: 0x1FAA3, name: "BUCKET", aliases: &[] },
        Codepoint { codepoint: 0x1FAA4, name: "MOUSE TRAP", aliases: &[] },
        Codepoint { codepoint: 0x1FAA5, name: "TOOTHBRUSH", aliases: &[] },
        Codepoint { codepoint: 0x1FAA6, name: "HEADSTONE", aliases: &[] },
        Codepoint { codepoint: 0x1FAA7, name: "PLACARD", aliases: &[] },
        Codepoint { codepoint: 0x1FAA8, name: "ROCK", aliases: &[] },
        Codepoint { codepoint: 0x1FAA9, name: "MIRROR BALL", aliases: &[] },
        Codepoint { codepoint: 0x1FAAA, name: "IDENTIFICATION CARD", aliases: &[] },
        Codepoint { codepoint: 0x1FAAB, name: "LOW BATTERY", aliases: &[] },
        Codepoint { codepoint: 0x1FAAC, name: "HAMSA", aliases: &[] },
        Codepoint { codepoint: 0x1FAB0, name: "FLY", aliases: &[] },
        Codepoint { codepoint: 0x1FAB1, name: "WORM", aliases: &[] },
        Codepoint { codepoint: 0x1FAB2, name: "BEETLE", aliases: &[] },
    ]
}

fn all_codepoints_836() -> (v: Vec<Codepoint>)
    ensures
        v@ == codepoint_table_836(),
{
    let v = vec![
        Codepoint { codepoint: 0x1FA7C, name: "CRUTCH", aliases: &[] },
        Codepoint { codepoint: 0x1FA80, name: "YO-YO", aliases: &[] },
        Codepoint { codepoint: 0x1FA81, name: "KITE", aliases: &[] },
        Codepoint { codepoint: 0x1FA82, name: "PARACHUTE", aliases: &[] },
        Codepoint { codepoint: 0x1FA83, name: "BOOMERANG", aliases: &[] },
        Codepoint { codepoint: 0x1FA84, name: "MAGIC WAND", aliases: &[] },
        Codepoint { codepoint: 0x1FA85, name: "PINATA", aliases: &[] },
        Codepoint { codepoint: 0x1FA86, name: "NESTING DOLLS", aliases: &[] },
        Codepoint { codepoint: 0x1FA90, name: "RINGED PLANET", aliases: &[] },
        Codepoint { codepoint: 0x1FA91, name: "CHAIR", aliases: &[] },
        Codepoint { codepoint: 0x1FA92, name: "RAZOR", aliases: &[] },
        Codepoint { codepoint: 0x1FA93, name: "AXE", aliases: &[] },
        Codepoint { codepoint: 0x1FA94, name: "DIYA LAMP", aliases: &[] },
        Codepoint { codepoint: 0x1FA95, name: "BANJO", aliases: &[] },
        Codepoint { codepoint: 0x1FA96, name: "MILITARY HELMET", aliases: &[] },
        Codepoint { codepoint: 0x1FA97, name: "ACCORDION", aliases: &[] },
        Codepoint { codepoint: 0x1FA98, name: "LONG DRUM", aliases: &[] },
        Codepoint { codepoint: 0x1FA99, name: "COIN", aliases: &[] },
        Codepoint { codepoint: 0x1FA9A, name: "CARPENTRY SAW", aliases: &[] },
        Codepoint { codepoint: 0x1FA9B, name: "SCREWDRIVER", aliases: &[] },
        Codepoint { codepoint: 0x1FA9C, name: "LADDER", aliases: &[] },
        Codepoint { codepoint: 0x1FA9D, name: "HOOK", aliases: &[] },
        Codepoint { codepoint: 0x1FA9E, name: "MIRROR", aliases: &[] },
        Codepoint { codepoint: 0x1FA9F, name: "WINDOW", aliases: &[] },
        Codepoint { codepoint: 0x1FAA0, name: "PLUNGER", aliases: &[] },
        Codepoint { codepoint: 0x1FAA1, name: "SEWING NEEDLE", aliases: &[] },
        Codepoint { codepoint: 0x1FAA2, name: "KNOT", aliases: &[] },
        Codepoint { codepoint: 0x1FAA3, name: "BUCKET", aliases: &[] },
        Codepoint { codepoint: 0x1FAA4, name: "MOUSE TRAP", aliases: &[] },
        Codepoint { codepoint: 0x1FAA5, name: "TOOTHBRUSH", aliases: &[] },
        Codepoint { codepoint: 0x1FAA6, name: "HEADSTONE", aliases: &[] },
        Codepoint { codepoint: 0x1FAA7, name: "PLACARD", aliases: &[] },
        Codepoint { codepoint: 0x1FAA8, name: "ROCK", aliases: &[] },
        Codepoint { codepoint: 0x1FAA9, name: "MIRROR BALL", aliases: &[] },
        Codepoint { codepoint: 0x1FAAA, name: "IDENTIFICATION CARD", aliases: &[] },
        Codepoint { codepoint: 0x1FAAB, name: "LOW BATTERY", aliases: &[] },
        Codepoint { codepoint: 0x1FAAC, name: "HAMSA", aliases: &[] },
        Codepoint { codepoint: 0x1FAB0, name: "FLY", aliases: &[] },
        Codepoint { codepoint: 0x1FAB1, name: "WORM", aliases: &[] },
        Codepoint { codepoint: 0x1FAB2, name: "BEETLE", aliases: &[] },
    ];
    assert(v@ =~= codepoint_table_836());
    v
}

pub open spec fn codepoint_table_837() -> Seq<Codepoint> {
    seq![
        Codepoint { codepoint: 0x1FAB3, name: "COCKROACH", aliases: &[] },
        Codepoint { codepoint: 0x1FAB4, name: "POTTED PLANT", aliases: &[] },
        Codepoint { codepoint: 0x1FAB5, name: "WOOD", aliases: &[] },
        Codepoint { codepoint: 0x1FAB6, name: "FEATHER", aliases: &[] },
        Codepoint { codepoint: 0x1FAB7, name: "LOTUS", aliases: &[] },
        Codepoint { codepoint: 0x1FAB8, name: "CORAL", aliases: &[] },
        Codepoint { codepoint: 0x1FAB9, name: "EMPTY NEST", aliases: &[] },
        Codepoint { codepoint: 0x1FABA, name: "NEST WITH EGGS", aliases: &[] },
        Codepoint { codepoint: 0x1FAC0, name: "ANATOMICAL HEART", aliases: &[] },
        Codepoint { codepoint: 0x1FAC1, name: "LUNGS", aliases: &[] },
        Codepoint { codepoint: 0x1FAC2, name: "PEOPLE HUGGING", aliases: &[] },
        Codepoint { codepoint: 0x1FAC3, name: "PREGNANT MAN", aliases: &[] },
        Codepoint { codepoint: 0x1FAC4, name: "PREGNANT PERSON", aliases: &[] },
        Codepoint { codepoint: 0x1FAC5, name: "PERSON WITH CROWN", aliases: &[] },
        Codepoint { codepoint: 0x1FAD0, name: "BLUEBERRIES", aliases: &[] },
        Codepoint { codepoint: 0x1FAD1, name: "BELL PEPPER", aliases: &[] },
        Codepoint { codepoint: 0x1FAD2, name: "OLIVE", aliases: &[] },
        Codepoint { codepoint: 0x1FAD3, name: "FLATBREAD", aliases: &[] },
        Codepoint { codepoint: 0x1FAD4, name: "TAMALE", aliases: &[] },
        Codepoint { codepoint: 0x1FAD5, name: "FONDUE", aliases: &[] },
        Codepoint { codepoint: 0x1FAD6, name: "TEAPOT", aliases: &[] },
        Codepoint { codepoint: 0x1FAD7, name: "POURING LIQUID", aliases: &[] },
        Codepoint { codepoint: 0x1FAD8, name: "BEANS", aliases: &[] },
        Codepoint { codepoint: 0x1FAD9, name: "JAR", aliases: &[] },
        Codepoint { codepoint: 0x1FAE0, name: "MELTING FACE", aliases: &[] },
        Codepoint { codepoint: 0x1FAE1, name: "SALUTING FACE", aliases: &[] },
        Codepoint { codepoint: 0x1FAE2, name: "FACE WITH OPEN EYES AND HAND OVER MOUTH", aliases: &[] },
        Codepoint { codepoint: 0x1FAE3, name: "FACE WITH PEEKING EYE", aliases: &[] },
        Codepoint { codepoint: 0x1FAE4, name: "FACE WITH DIAGONAL MOUTH", aliases: &[] },
        Codepoint { codepoint: 0x1FAE5, name: "DOTTED LINE FACE", aliases: &[] },
        Codepoint { codepoint: 0x1FAE6, name: "BITING LIP", aliases: &[] },
        Codepoint { codepoint: 0x1FAE7, name: "BUBBLES", aliases: &[] },
        Codepoint { codepoint: 0x1FAF0, name: "HAND WITH INDEX FINGER AND THUMB CROSSED", aliases: &[] },
        Codepoint { codepoint: 0x1FAF1, name: "RIGHTWARDS HAND", aliases: &[] },
        Codepoint { codepoint: 0x1FAF2, name: "LEFTWARDS HAND", aliases: &[] },
        Codepoint { codepoint: 0x1FAF3, name: "PALM DOWN HAND", aliases: &[] },
        Codepoint { codepoint: 0x1FAF4, name: "PALM UP HAND", aliases: &[] },
        Codepoint { codepoint: 0x1FAF5, name: "INDEX POINTING AT THE VIEWER", aliases: &[] },
        Codepoint { codepoint: 0x1FAF6, name: "HEART HANDS", aliases: &[] },
        Codepoint { codepoint: 0x1FB00, name: "BLOCK SEXTANT-1", aliases: &[] },
    ]
}

fn all_codepoints_837() -> (v: Vec<Codepoint>)
    ensures
        v@ == codepoint_table_837(),
{
    let v = vec![
        Codepoint { codepoint: 0x1FAB3, name: "COCKROACH", aliases: &[] },
        Codepoint { codepoint: 0x1FAB4, name: "POTTED PLANT", aliases: &[] },
        Codepoint { codepoint: 0x1FAB5, name: "WOOD", aliases: &[] },
        Codepoint { codepoint: 0x1FAB6, name: "FEATHER", aliases: &[] },
        Codepoint { codepoint: 0x1FAB7, name: "LOTUS", aliases: &[] },
        Codepoint { codepoint: 0x1FAB8, name: "CORAL", aliases: &[] },
        Codepoint { codepoint: 0x1FAB9, name: "EMPTY NEST", aliases: &[] },
        Codepoint { codepoint: 0x1FABA, name: "NEST WITH EGGS", aliases: &[] },
        Codepoint { codepoint: 0x1FAC0, name: "ANATOMICAL HEART", aliases: &[] },
        Codepoint { codepoint: 0x1FAC1, name: "LUNGS", aliases: &[] },
        Codepoint { codepoint: 0x1FAC2, name: "PEOPLE HUGGING", aliases: &[] },
        Codepoint { codepoint: 0x1FAC3, name: "PREGNANT MAN", aliases: &[] },
        Codepoint { codepoint: 0x1FAC4, name: "PREGNANT PERSON", aliases: &[] },
        Codepoint { codepoint: 0x1FAC5, name: "PERSON WITH CROWN", aliases: &[] },
        Codepoint { codepoint: 0x1FAD0, name: "BLUEBERRIES", aliases: &[] },
        Codepoint { codepoint: 0x1FAD1, name: "BELL PEPPER", aliases: &[] },
        Codepoint { codepoint: 0x1FAD2, name: "OLIVE", aliases: &[] },
        Codepoint { codepoint: 0x1FAD3, name: "FLATBREAD", aliases: &[] },
        Codepoint { codepoint: 0x1FAD4, name: "TAMALE", aliases: &[] },
        Codepoint { codepoint: 0x1FAD5, name: "FONDUE", aliases: &[] },
        Codepoint { codepoint: 0x1FAD6, name: "TEAPOT", aliases: &[] },
        Codepoint { codepoint: 0x1FAD7, name: "POURING LIQUID", aliases: &[] },
        Codepoint { codepoint: 0x1FAD8, name: "BEANS", aliases: &[] },
        Codepoint { codepoint: 0x1FAD9, name: "JAR", aliases: &[] },
        Codepoint { codepoint: 0x1FAE0, name: "MELTING FACE", aliases: &[] },
        Codepoint { codepoint: 0x1FAE1, name: "SALUTING FACE", aliases: &[] },
        Codepoint { codepoint: 0x1FAE2, name: "FACE WITH OPEN EYES AND HAND OVER MOUTH", aliases: &[] },
        Codepoint { codepoint: 0x1FAE3, name: "FACE WITH PEEKING EYE", aliases: &[] },
        Codepoint { codepoint: 0x1FAE4, name: "FACE WITH DIAGONAL MOUTH", aliases: &[] },
        Codepoint { codepoint: 0x1FAE5, name: "DOTTED LINE FACE", aliases: &[] },
        Codepoint { codepoint: 0x1FAE6, name: "BITING LIP", aliases: &[] },
        Codepoint { codepoint: 0x1FAE7, name: "BUBBLES", aliases: &[] },
        Codepoint { codepoint: 0x1FAF0, name: "HAND WITH INDEX FINGER AND THUMB CROSSED", aliases: &[] },
        Codepoint { codepoint: 0x1FAF1, name: "RIGHTWARDS HAND", aliases: &[] },
        Codepoint { codepoint: 0x1FAF2, name: "LEFTWARDS HAND", aliases: &[] },
        Codepoint { codepoint: 0x1FAF3, name: "PALM DOWN HAND", aliases: &[] },
        Codepoint { codepoint: 0x1FAF4, name: "PALM UP HAND", aliases: &[] },
        Codepoint { codepoint: 0x1FAF5, name: "INDEX POINTING AT THE VIEWER", aliases: &[] },
        Codepoint { codepoint: 0x1FAF6, name: "HEART HANDS", aliases: &[] },
        Codepoint { codepoint: 0x1FB00, name: "BLOCK SEXTANT-1", aliases: &[] },
    ];
    assert(v@ =~= codepoint_table_837());
    v
}

pub open spec fn codepoint_table_838() -> Seq<Codepoint> {
    seq![
        Codepoint { codepoint: 0x1FB01, name: "BLOCK SEXTANT-2", aliases: &[] },
        Codepoint { codepoint: 0x1FB02, name: "BLOCK SEXTANT-12", aliases: &[] },
        Codepoint { codepoint: 0x1FB03, name: "BLOCK SEXTANT-3", aliases: &[] },
        Codepoint { codepoint: 0x1FB04, name: "BLOCK SEXTANT-13", aliases: &[] },
        Codepoint { codepoint: 0x1FB05, name: "BLOCK SEXTANT-23", aliases: &[] },
        Codepoint { codepoint: 0x1FB06, name: "BLOCK SEXTANT-123", aliases: &[] },
        Codepoint { codepoint: 0x1FB07, name: "BLOCK SEXTANT-4", aliases: &[] },
        Codepoint { codepoint: 0x1FB08, name: "BLOCK SEXTANT-14", aliases: &[] },
        Codepoint { codepoint: 0x1FB09, name: "BLOCK SEXTANT-24", aliases: &[] },
        Codepoint { codepoint: 0x1FB0A, name: "BLOCK SEXTANT-124", aliases: &[] },
        Codepoint { codepoint: 0x1FB0B, name: "BLOCK SEXTANT-34", aliases: &[] },
        Codepoint { codepoint: 0x1FB0C, name: "BLOCK SEXTANT-134", aliases: &[] },
        Codepoint { codepoint: 0x1FB0D, name: "BLOCK SEXTANT-234", aliases: &[] },
        Codepoint { codepoint: 0x1FB0E, name: "BLOCK SEXTANT-1234", aliases: &[] },
        Codepoint { codepoint: 0x1FB0F, name: "BLOCK SEXTANT-5", aliases: &[] },
        Codepoint { codepoint: 0x1FB10, name: "BLOCK SEXTANT-15", aliases: &[] },
        Codepoint { codepoint: 0x1FB11, name: "BLOCK SEXTANT-25", aliases: &[] },
        Codepoint { codepoint: 0x1FB12, name: "BLOCK SEXTANT-125", aliases: &[] },
        Codepoint { codepoint: 0x1FB13, name: "BLOCK SEXTANT-35", aliases: &[] },
        Codepoint { codepoint: 0x1FB14, name: "BLOCK SEXTANT-235", aliases: &[] },
        Codepoint { codepoint: 0x1FB15, name: "BLOCK SEXTANT-1235", aliases: &[] },
        Codepoint { codepoint: 0x1FB16, name: "BLOCK SEXTANT-45", aliases: &[] },
        Codepoint { codepoint: 0x1FB17, name: "BLOCK SEXTANT-145", aliases: &[] },
        Codepoint { codepoint: 0x1FB18, name: "BLOCK SEXTANT-245", aliases: &[] },
        Codepoint { codepoint: 0x1FB19, name: "BLOCK SEXTANT-1245", aliases: &[] },
        Codepoint { codepoint: 0x1FB1A, name: "BLOCK SEXTANT-345", aliases: &[] },
        Codepoint { codepoint: 0x1FB1B, name: "BLOCK SEXTANT-1345", aliases: &[] },
        Codepoint { codepoint: 0x1FB1C, name: "BLOCK SEXTANT-2345", aliases: &[] },
        Codepoint { codepoint: 0x1FB1D, name: "BLOCK SEXTANT-12345", aliases: &[] },
        Codepoint { codepoint: 0x1FB1E, name: "BLOCK SEXTANT-6", aliases: &[] },
        Codepoint { codepoint: 0x1FB1F, name: "BLOCK SEXTANT-16", aliases: &[] },
        Codepoint { codepoint: 0x1FB20, name: "BLOCK SEXTANT-26", aliases: &[] },
        Codepoint { codepoint: 0x1FB21, name: "BLOCK SEXTANT-126", aliases: &[] },
        Codepoint { codepoint: 0x1FB22, name: "BLOCK SEXTANT-36", aliases: &[] },
        Codepoint { codepoint: 0x1FB23, name: "BLOCK SEXTANT-136", aliases: &[] },
        Codepoint { codepoint: 0x1FB24, name: "BLOCK SEXTANT-236", aliases: &[] },
        Codepoint { codepoint: 0x1FB25, name: "BLOCK SEXTANT-1236", aliases: &[] },
        Codepoint { codepoint: 0x1FB26, name: "BLOCK SEXTANT-46", aliases: &[] },
        Codepoint { codepoint: 0x1FB27, name: "BLOCK SEXTANT-146", aliases: &[] },
        Codepoint { codepoint: 0x1FB28, name: "BLOCK SEXTANT-1246", aliases: &[] },
    ]
}

fn all_codepoints_838() -> (v: Vec<Codepoint>)
    ensures
        v@ == codepoint_table_838(),
{
    let v = vec![
        Codepoint { codepoint: 0x1FB01, name: "BLOCK SEXTANT-2", aliases: &[] },
        Codepoint { codepoint: 0x1FB02, name: "BLOCK SEXTANT-12", aliases: &[] },
        Codepoint { codepoint: 0x1FB03, name: "BLOCK SEXTANT-3", aliases: &[] },
        Codepoint { codepoint: 0x1FB04, name: "BLOCK SEXTANT-13", aliases: &[] },
        Codepoint { codepoint: 0x1FB05, name: "BLOCK SEXTANT-23", aliases: &[] },
        Codepoint { codepoint: 0x1FB06, name: "BLOCK SEXTANT-123", aliases: &[] },
        Codepoint { codepoint: 0x1FB07, name: "BLOCK SEXTANT-4", aliases: &[] },
        Codepoint { codepoint: 0x1FB08, name: "BLOCK SEXTANT-14", aliases: &[] },
        Codepoint { codepoint: 0x1FB09, name: "BLOCK SEXTANT-24", aliases: &[] },
        Codepoint { codepoint: 0x1FB0A, name: "BLOCK SEXTANT-124", aliases: &[] },
        Codepoint { codepoint: 0x1FB0B, name: "BLOCK SEXTANT-34", aliases: &[] },
        Codepoint { codepoint: 0x1FB0C, name: "BLOCK SEXTANT-134", aliases: &[] },
        Codepoint { codepoint: 0x1FB0D, name: "BLOCK SEXTANT-234", aliases: &[] },
        Codepoint { codepoint: 0x1FB0E, name: "BLOCK SEXTANT-1234", aliases: &[] },
        Codepoint { codepoint: 0x1FB0F, name: "BLOCK SEXTANT-5", aliases: &[] },
        Codepoint { codepoint: 0x1FB10, name: "BLOCK SEXTANT-15", aliases: &[] },
        Codepoint { codepoint: 0x1FB11, name: "BLOCK SEXTANT-25", aliases: &[] },
        Codepoint { codepoint: 0x1FB12, name: "BLOCK SEXTANT-125", aliases: &[] },
        Codepoint { codepoint: 0x1FB13, name: "BLOCK SEXTANT-35", aliases: &[] },
        Codepoint { codepoint: 0x1FB14, name: "BLOCK SEXTANT-235", aliases: &[] },
        Codepoint { codepoint: 0x1FB15, name: "BLOCK SEXTANT-1235", aliases: &[] },
        Codepoint { codepoint: 0x1FB16, name: "BLOCK SEXTANT-45", aliases: &[] },
        Codepoint { codepoint: 0x1FB17, name: "BLOCK SEXTANT-145", aliases: &[] },
        Codepoint { codepoint: 0x1FB18, name: "BLOCK SEXTANT-245", aliases: &[] },
        Codepoint { codepoint: 0x1FB19, name: "BLOCK SEXTANT-1245", aliases: &[] },
        Codepoint { codepoint: 0x1FB1A, name: "BLOCK SEXTANT-345", aliases: &[] },
        Codepoint { codepoint: 0x1FB1B, name: "BLOCK SEXTANT-1345", aliases: &[] },
        Codepoint { codepoint: 0x1FB1C, name: "BLOCK SEXTANT-2345", aliases: &[] },
        Codepoint { codepoint: 0x1FB1D, name: "BLOCK SEXTANT-12345", aliases: &[] },
        Codepoint { codepoint: 0x1FB1E, name: "BLOCK SEXTANT-6", aliases: &[] },
        Codepoint { codepoint: 0x1FB1F, name: "BLOCK SEXTANT-16", aliases: &[] },
        Codepoint { codepoint: 0x1FB20, name: "BLOCK SEXTANT-26", aliases: &[] },
        Codepoint { codepoint: 0x1FB21, name: "BLOCK SEXTANT-126", aliases: &[] },
        Codepoint { codepoint: 0x1FB22, name: "BLOCK SEXTANT-36", aliases: &[] },
        Codepoint { codepoint: 0x1FB23, name: "BLOCK SEXTANT-136", aliases: &[] },
        Codepoint { codepoint: 0x1FB24, name: "BLOCK SEXTANT-236", aliases: &[] },
        Codepoint { codepoint: 0x1FB25, name: "BLOCK SEXTANT-1236", aliases: &[] },
        Codepoint { codepoint: 0x1FB26, name: "BLOCK SEXTANT-46", aliases: &[] },
        Codepoint { codepoint: 0x1FB27, name: "BLOCK SEXTANT-146", aliases: &[] },
        Codepoint { codepoint: 0x1FB28, name: "BLOCK SEXTANT-1246", aliases: &[] },
    ];
    assert(v@ =~= codepoint_table_838());
    v
}

pub open spec fn codepoint_table_839() -> Seq<Codepoint> {
    seq![
        Codepoint { codepoint: 0x1FB29, name: "BLOCK SEXTANT-346", aliases: &[] },
        Codepoint { codepoint: 0x1FB2A, name: "BLOCK SEXTANT-1346", aliases: &[] },
        Codepoint { codepoint: 0x1FB2B, name: "BLOCK SEXTANT-2346", aliases: &[] },
        Codepoint { codepoint: 0x1FB2C, name: "BLOCK SEXTANT-12346", aliases: &[] },
        Codepoint { codepoint: 0x1FB2D, name: "BLOCK SEXTANT-56", aliases: &[] },
        Codepoint { codepoint: 0x1FB2E, name: "BLOCK SEXTANT-156", aliases: &[] },
        Codepoint { codepoint: 0x1FB2F, name: "BLOCK SEXTANT-256", aliases: &[] },
        Codepoint { codepoint: 0x1FB30, name: "BLOCK SEXTANT-1256", aliases: &[] },
        Codepoint { codepoint: 0x1FB31, name: "BLOCK SEXTANT-356", aliases: &[] },
        Codepoint { codepoint: 0x1FB32, name: "BLOCK SEXTANT-1356", aliases: &[] },
        Codepoint { codepoint: 0x1FB33, name: "BLOCK SEXTANT-2356", aliases: &[] },
        Codepoint { codepoint: 0x1FB34, name: "BLOCK SEXTANT-12356", aliases: &[] },
        Codepoint { codepoint: 0x1FB35, name: "BLOCK SEXTANT-456", aliases: &[] },
        Codepoint { codepoint: 0x1FB36, name: "BLOCK SEXTANT-1456", aliases: &[] },
        Codepoint { codepoint: 0x1FB37, name: "BLOCK SEXTANT-2456", aliases: &[] },
        Codepoint { codepoint: 0x1FB38, name: "BLOCK SEXTANT-12456", aliases: &[] },
        Codepoint { codepoint: 0x1FB39, name: "BLOCK SEXTANT-3456", aliases: &[] },
        Codepoint { codepoint: 0x1FB3A, name: "BLOCK SEXTANT-13456", aliases: &[] },
        Codepoint { codepoint: 0x1FB3B, name: "BLOCK SEXTANT-23456", aliases: &[] },
        Codepoint { codepoint: 0x1FB3C, name: "LOWER LEFT BLOCK DIAGONAL LOWER MIDDLE LEFT TO LOWER CENTRE", aliases: &[] },
        Codepoint { codepoint: 0x1FB3D, name: "LOWER LEFT BLOCK DIAGONAL LOWER MIDDLE LEFT TO LOWER RIGHT", aliases: &[] },
        Codepoint { codepoint: 0x1FB3E, name: "LOWER LEFT BLOCK DIAGONAL UPPER MIDDLE LEFT TO LOWER CENTRE", aliases: &[] },
        Codepoint { codepoint: 0x1FB3F, name: "LOWER LEFT BLOCK DIAGONAL UPPER MIDDLE LEFT TO LOWER RIGHT", aliases: &[] },
        Codepoint { codepoint: 0x1FB40, name: "LOWER LEFT BLOCK DIAGONAL UPPER LEFT TO LOWER CENTRE", aliases: &[] },
        Codepoint { codepoint: 0x1FB41, name: "LOWER RIGHT BLOCK DIAGONAL UPPER MIDDLE LEFT TO UPPER CENTRE", aliases: &[] },
        Codepoint { codepoint: 0x1FB42, name: "LOWER RIGHT BLOCK DIAGONAL UPPER MIDDLE LEFT TO UPPER RIGHT", aliases: &[] },
        Codepoint { codepoint: 0x1FB43, name: "LOWER RIGHT BLOCK DIAGONAL LOWER MIDDLE LEFT TO UPPER CENTRE", aliases: &[] },
        Codepoint { codepoint: 0x1FB44, name: "LOWER RIGHT BLOCK DIAGONAL LOWER MIDDLE LEFT TO UPPER RIGHT", aliases: &[] },
        Codepoint { codepoint: 0x1FB45, name: "LOWER RIGHT BLOCK DIAGONAL LOWER LEFT TO UPPER CENTRE", aliases: &[] },
        Codepoint { codepoint: 0x1FB46, name: "LOWER RIGHT BLOCK DIAGONAL LOWER MIDDLE LEFT TO UPPER MIDDLE RIGHT", aliases: &[] },
        Codepoint { codepoint: 0x1FB47, name: "LOWER RIGHT BLOCK DIAGONAL LOWER CENTRE TO LOWER MIDDLE RIGHT", aliases: &[] },
        Codepoint { codepoint: 0x1FB48, name: "LOWER RIGHT BLOCK DIAGONAL LOWER LEFT TO LOWER MIDDLE RIGHT", aliases: &[] },
        Codepoint { codepoint: 0x1FB49, name: "LOWER RIGHT BLOCK DIAGONAL LOWER CENTRE TO UPPER MIDDLE RIGHT", aliases: &[] },
        Codepoint { codepoint: 0x1FB4A, name: "LOWER RIGHT BLOCK DIAGONAL LOWER LEFT TO UPPER MIDDLE RIGHT", aliases: &[] },
        Codepoint { codepoint: 0x1FB4B, name: "LOWER RIGHT BLOCK DIAGONAL LOWER CENTRE TO UPPER RIGHT", aliases: &[] },
        Codepoint { codepoint: 0x1FB4C, name: "LOWER LEFT BLOCK DIAGONAL UPPER CENTRE TO UPPER MIDDLE RIGHT", aliases: &[] },
        Codepoint { codepoint: 0x1FB4D, name: "LOWER LEFT BLOCK DIAGONAL UPPER LEFT TO UPPER MIDDLE RIGHT", aliases: &[] },
        Codepoint { codepoint: 0x1FB4E, name: "LOWER LEFT BLOCK DIAGONAL UPPER CENTRE TO LOWER MIDDLE RIGHT", aliases: &[] },
        Codepoint { codepoint: 0x1FB4F, name: "LOWER LEFT BLOCK DIAGONAL UPPER LEFT TO LOWER MIDDLE RIGHT", aliases: &[] },
        Codepoint { codepoint: 0x1FB50, name: "LOWER LEFT BLOCK DIAGONAL UPPER CENTRE TO LOWER RIGHT", aliases: &[] },
    ]
}

fn all_codepoints_839() -> (v: Vec<Codepoint>)
    ensures
        v@ == codepoint_table_839(),
{
    let v = vec![
        Codepoint { codepoint: 0x1FB29, name: "BLOCK SEXTANT-346", aliases: &[] },
        Codepoint { codepoint: 0x1FB2A, name: "BLOCK SEXTANT-1346", aliases: &[] },
        Codepoint { codepoint: 0x1FB2B, name: "BLOCK SEXTANT-2346", aliases: &[] },
        Codepoint { codepoint: 0x1FB2C, name: "BLOCK SEXTANT-12346", aliases: &[] },
        Codepoint { codepoint: 0x1FB2D, name: "BLOCK SEXTANT-56", aliases: &[] },
        Codepoint { codepoint: 0x1FB2E, name: "BLOCK SEXTANT-156", aliases: &[] },
        Codepoint { codepoint: 0x1FB2F, name: "BLOCK SEXTANT-256", aliases: &[] },
        Codepoint { codepoint: 0x1FB30, name: "BLOCK SEXTANT-1256", aliases: &[] },
        Codepoint { codepoint: 0x1FB31, name: "BLOCK SEXTANT-356", aliases: &[] },
        Codepoint { codepoint: 0x1FB32, name: "BLOCK SEXTANT-1356", aliases: &[] },
        Codepoint { codepoint: 0x1FB33, name: "BLOCK SEXTANT-2356", aliases: &[] },
        Codepoint { codepoint: 0x1FB34, name: "BLOCK SEXTANT-12356", aliases: &[] },
        Codepoint { codepoint: 0x1FB35, name: "BLOCK SEXTANT-456", aliases: &[] },
        Codepoint { codepoint: 0x1FB36, name: "BLOCK SEXTANT-1456", aliases: &[] },
        Codepoint { codepoint: 0x1FB37, name: "BLOCK SEXTANT-2456", aliases: &[] },
        Codepoint { codepoint: 0x1FB38, name: "BLOCK SEXTANT-12456", aliases: &[] },
        Codepoint { codepoint: 0x1FB39, name: "BLOCK SEXTANT-3456", aliases: &[] },
        Codepoint { codepoint: 0x1FB3A, name: "BLOCK SEXTANT-13456", aliases: &[] },
        Codepoint { codepoint: 0x1FB3B, name: "BLOCK SEXTANT-23456", aliases: &[] },
        Codepoint { codepoint: 0x1FB3C, name: "LOWER LEFT BLOCK DIAGONAL LOWER MIDDLE LEFT TO LOWER CENTRE", aliases: &[] },
        Codepoint { codepoint: 0x1FB3D, name: "LOWER LEFT BLOCK DIAGONAL LOWER MIDDLE LEFT TO LOWER RIGHT", aliases: &[] },
        Codepoint { codepoint: 0x1FB3E, name: "LOWER LEFT BLOCK DIAGONAL UPPER MIDDLE LEFT TO LOWER CENTRE", aliases: &[] },
        Codepoint { codepoint: 0x1FB3F, name: "LOWER LEFT BLOCK DIAGONAL UPPER MIDDLE LEFT TO LOWER RIGHT", aliases: &[] },
        Codepoint { codepoint: 0x1FB40, name: "LOWER LEFT BLOCK DIAGONAL UPPER LEFT TO LOWER CENTRE", aliases: &[] },
        Codepoint { codepoint: 0x1FB41, name: "LOWER RIGHT BLOCK DIAGONAL UPPER MIDDLE LEFT TO UPPER CENTRE", aliases: &[] },
        Codepoint { codepoint: 0x1FB42, name: "LOWER RIGHT BLOCK DIAGONAL UPPER MIDDLE LEFT TO UPPER RIGHT", aliases: &[] },
        Codepoint { codepoint: 0x1FB43, name: "LOWER RIGHT BLOCK DIAGONAL LOWER MIDDLE LEFT TO UPPER CENTRE", aliases: &[] },
        Codepoint { codepoint: 0x1FB44, name: "LOWER RIGHT BLOCK DIAGONAL LOWER MIDDLE LEFT TO UPPER RIGHT", aliases: &[] },
        Codepoint { codepoint: 0x1FB45, name: "LOWER RIGHT BLOCK DIAGONAL LOWER LEFT TO UPPER CENTRE", aliases: &[] },
        Codepoint { codepoint: 0x1FB46, name: "LOWER RIGHT BLOCK DIAGONAL LOWER MIDDLE LEFT TO UPPER MIDDLE RIGHT", aliases: &[] },
        Codepoint { codepoint: 0x1FB47, name: "LOWER RIGHT BLOCK DIAGONAL LOWER CENTRE TO LOWER MIDDLE RIGHT", aliases: &[] },
        Codepoint { codepoint: 0x1FB48, name: "LOWER RIGHT BLOCK DIAGONAL LOWER LEFT TO LOWER MIDDLE RIGHT", aliases: &[] },
        Codepoint { codepoint: 0x1FB49, name: "LOWER RIGHT BLOCK DIAGONAL LOWER CENTRE TO UPPER MIDDLE RIGHT", aliases: &[] },
        Codepoint { codepoint: 0x1FB4A, name: "LOWER RIGHT BLOCK DIAGONAL LOWER LEFT TO UPPER MIDDLE RIGHT", aliases: &[] },
        Codepoint { codepoint: 0x1FB4B, name: "LOWER RIGHT BLOCK DIAGONAL LOWER CENTRE TO UPPER RIGHT", aliases: &[] },
        Codepoint { codepoint: 0x1FB4C, name: "LOWER LEFT BLOCK DIAGONAL UPPER CENTRE TO UPPER MIDDLE RIGHT", aliases: &[] },
        Codepoint { codepoint: 0x1FB4D, name: "LOWER LEFT BLOCK DIAGONAL UPPER LEFT TO UPPER MIDDLE RIGHT", aliases: &[] },
        Codepoint { codepoint: 0x1FB4E, name: "LOWER LEFT BLOCK DIAGONAL UPPER CENTRE TO LOWER MIDDLE RIGHT", aliases: &[] },
        Codepoint { codepoint: 0x1FB4F, name: "LOWER LEFT BLOCK DIAGONAL UPPER LEFT TO LOWER MIDDLE RIGHT", aliases: &[] },
        Codepoint { codepoint: 0x1FB50, name: "LOWER LEFT BLOCK DIAGONAL UPPER CENTRE TO LOWER RIGHT", aliases: &[] },
    ];
    assert(v@ =~= codepoint_table_839());
    v
}

/// The entries from position 32800 of the table, 800 at most.
pub open spec fn codepoint_group_41() -> Seq<Codepoint> {
    codepoint_table_820() + codepoint_table_821() + codepoint_table_822() + codepoint_table_823() + codepoint_table_824() + codepoint_table_825() + codepoint_table_826() + codepoint_table_827() + codepoint_table_828() + codepoint_table_829() + codepoint_table_830() + codepoint_table_831() + codepoint_table_832() + codepoint_table_833() + codepoint_table_834() + codepoint_table_835() + codepoint_table_836() + codepoint_table_837() + codepoint_table_838() + codepoint_table_839()
}

pub fn all_codepoints_group_41() -> (v: Vec<Codepoint>)
    ensures
        v@ == codepoint_group_41(),
{
    let mut v = all_codepoints_820();
    let mut part = all_codepoints_821();
    v.append(&mut part);
    let mut part = all_codepoints_822();
    v.append(&mut part);
    let mut part = all_codepoints_823();
    v.append(&mut part);
    let mut part = all_codepoints_824();
    v.append(&mut part);
    let mut part = all_codepoints_825();
    v.append(&mut part);
    let mut part = all_codepoints_826();
    v.append(&mut part);
    let mut part = all_codepoints_827();
    v.append(&mut part);
    let mut part = all_codepoints_828();
    v.append(&mut part);
    let mut part = all_codepoints_829();
    v.append(&mut part);
    let mut part = all_codepoints_830();
    v.append(&mut part);
    let mut part = all_codepoints_831();
    v.append(&mut part);
    let mut part = all_codepoints_832();
    v.append(&mut part);
    let mut part = all_codepoints_833();
    v.append(&mut part);
    let mut part = all_codepoints_834();
    v.append(&mut part);
    let mut part = all_codepoints_835();
    v.append(&mut part);
    let mut part = all_codepoints_836();
    v.append(&mut part);
    let mut part = all_codepoints_837();
    v.append(&mut part);
    let mut part = all_codepoints_838();
    v.append(&mut part);
    let mut part = all_codepoints_839();
    v.append(&mut part);
    v
}

pub open spec fn codepoint_table_840() -> Seq<Codepoint> {
    seq![
        Codepoint { codepoint: 0x1FB51, name: "LOWER LEFT BLOCK DIAGONAL UPPER MIDDLE LEFT TO LOWER MIDDLE RIGHT", aliases: &[] },
        Codepoint { codepoint: 0x1FB52, name: "UPPER RIGHT BLOCK DIAGONAL LOWER MIDDLE LEFT TO LOWER CENTRE", aliases: &[] },
        Codepoint { codepoint: 0x1FB53, name: "UPPER RIGHT BLOCK DIAGONAL LOWER MIDDLE LEFT TO LOWER RIGHT", aliases: &[] },
        Codepoint { codepoint: 0x1FB54, name: "UPPER RIGHT BLOCK DIAGONAL UPPER MIDDLE LEFT TO LOWER CENTRE", aliases: &[] },
        Codepoint { codepoint: 0x1FB55, name: "UPPER RIGHT BLOCK DIAGONAL UPPER MIDDLE LEFT TO LOWER RIGHT", aliases: &[] },
        Codepoint { codepoint: 0x1FB56, name: "UPPER RIGHT BLOCK DIAGONAL UPPER LEFT TO LOWER CENTRE", aliases: &[] },
        Codepoint { codepoint: 0x1FB57, name: "UPPER LEFT BLOCK DIAGONAL UPPER MIDDLE LEFT TO UPPER CENTRE", aliases: &[] },
        Codepoint { codepoint: 0x1FB58, name: "UPPER LEFT BLOCK DIAGONAL UPPER MIDDLE LEFT TO UPPER RIGHT", aliases: &[] },
        Codepoint { codepoint: 0x1FB59, name: "UPPER LEFT BLOCK DIAGONAL LOWER MIDDLE LEFT TO UPPER CENTRE", aliases: &[] },
        Codepoint { codepoint: 0x1FB5A, name: "UPPER LEFT BLOCK DIAGONAL LOWER MIDDLE LEFT TO UPPER RIGHT", aliases: &[] },
        Codepoint { codepoint: 0x1FB5B, name: "UPPER LEFT BLOCK DIAGONAL LOWER LEFT TO UPPER CENTRE", aliases: &[] },
        Codepoint { codepoint: 0x1FB5C, name: "UPPER LEFT BLOCK DIAGONAL LOWER MIDDLE LEFT TO UPPER MIDDLE RIGHT", aliases: &[] },
        Codepoint { codepoint: 0x1FB5D, name: "UPPER LEFT BLOCK DIAGONAL LOWER CENTRE TO LOWER MIDDLE RIGHT", aliases: &[] },
        Codepoint { codepoint: 0x1FB5E, name: "UPPER LEFT BLOCK DIAGONAL LOWER LEFT TO LOWER MIDDLE RIGHT", aliases: &[] },
        Codepoint { codepoint: 0x1FB5F, name: "UPPER LEFT BLOCK DIAGONAL LOWER CENTRE TO UPPER MIDDLE RIGHT", aliases: &[] },
        Codepoint { codepoint: 0x1FB60, name: "UPPER LEFT BLOCK DIAGONAL LOWER LEFT TO UPPER MIDDLE RIGHT", aliases: &[] },
        Codepoint { codepoint: 0x1FB61, name: "UPPER LEFT BLOCK DIAGONAL LOWER CENTRE TO UPPER RIGHT", aliases: &[] },
        Codepoint { codepoint: 0x1FB62, name: "UPPER RIGHT BLOCK DIAGONAL UPPER CENTRE TO UPPER MIDDLE RIGHT", aliases: &[] },
        Codepoint { codepoint: 0x1FB63, name: "UPPER RIGHT BLOCK DIAGONAL UPPER LEFT TO UPPER MIDDLE RIGHT", aliases: &[] },
        Codepoint { codepoint: 0x1FB64, name: "UPPER RIGHT BLOCK DIAGONAL UPPER CENTRE TO LOWER MIDDLE RIGHT", aliases: &[] },
        Codepoint { codepoint: 0x1FB65, name: "UPPER RIGHT BLOCK DIAGONAL UPPER LEFT TO LOWER MIDDLE RIGHT", aliases: &[] },
        Codepoint { codepoint: 0x1FB66, name: "UPPER RIGHT BLOCK DIAGONAL UPPER CENTRE TO LOWER RIGHT", aliases: &[] },
        Codepoint { codepoint: 0x1FB67, name: "UPPER RIGHT BLOCK DIAGONAL UPPER MIDDLE LEFT TO LOWER MIDDLE RIGHT", aliases: &[] },
        Codepoint { codepoint: 0x1FB68, name: "UPPER AND RIGHT AND LOWER TRIANGULAR THREE QUARTERS BLOCK", aliases: &[] },
        Codepoint { codepoint: 0x1FB69, name: "LEFT AND LOWER AND RIGHT TRIANGULAR THREE QUARTERS BLOCK", aliases: &[] },
        Codepoint { codepoint: 0x1FB6A, name: "UPPER AND LEFT AND LOWER TRIANGULAR THREE QUARTERS BLOCK", aliases: &[] },
        Codepoint { codepoint: 0x1FB6B, name: "LEFT AND UPPER AND RIGHT TRIANGULAR THREE QUARTERS BLOCK", aliases: &[] },
        Codepoint { codepoint: 0x1FB6C, name: "LEFT TRIANGULAR ONE QUARTER BLOCK", aliases: &[] },
        Codepoint { codepoint: 0x1FB6D, name: "UPPER TRIANGULAR ONE QUARTER BLOCK", aliases: &[] },
        Codepoint { codepoint: 0x1FB6E, name: "RIGHT TRIANGULAR ONE QUARTER BLOCK", aliases: &[] },
        Codepoint { codepoint: 0x1FB6F, name: "LOWER TRIANGULAR ONE QUARTER BLOCK", aliases: &[] },
        Codepoint { codepoint: 0x1FB70, name: "VERTICAL ONE EIGHTH BLOCK-2", aliases: &[] },
        Codepoint { codepoint: 0x1FB71, name: "VERTICAL ONE EIGHTH BLOCK-3", aliases: &[] },
        Codepoint { codepoint: 0x1FB72, name: "VERTICAL ONE EIGHTH BLOCK-4", aliases: &[] },
        Codepoint { codepoint: 0x1FB73, name: "VERTICAL ONE EIGHTH BLOCK-5", aliases: &[] },
        Codepoint { codepoint: 0x1FB74, name: "VERTICAL ONE EIGHTH BLOCK-6", aliases: &[] },
        Codepoint { codepoint: 0x1FB75, name: "VERTICAL ONE EIGHTH BLOCK-7", aliases: &[] },
        Codepoint { codepoint: 0x1FB76, name: "HORIZONTAL ONE EIGHTH BLOCK-2", aliases: &[] },
        Codepoint { codepoint: 0x1FB77, name: "HORIZONTAL ONE EIGHTH BLOCK-3", aliases: &[] },
        Codepoint { codepoint: 0x1FB78, name: "HORIZONTAL ONE EIGHTH BLOCK-4", aliases: &[] },
    ]
}

fn all_codepoints_840() -> (v: Vec<Codepoint>)
    ensures
        v@ == codepoint_table_840(),
{
    let v = vec![
        Codepoint { codepoint: 0x1FB51, name: "LOWER LEFT BLOCK DIAGONAL UPPER MIDDLE LEFT TO LOWER MIDDLE RIGHT", aliases: &[] },
        Codepoint { codepoint: 0x1FB52, name: "UPPER RIGHT BLOCK DIAGONAL LOWER MIDDLE LEFT TO LOWER CENTRE", aliases: &[] },
        Codepoint { codepoint: 0x1FB53, name: "UPPER RIGHT BLOCK DIAGONAL LOWER MIDDLE LEFT TO LOWER RIGHT", aliases: &[] },
        Codepoint { codepoint: 0x1FB54, name: "UPPER RIGHT BLOCK DIAGONAL UPPER MIDDLE LEFT TO LOWER CENTRE", aliases: &[] },
        Codepoint { codepoint: 0x1FB55, name: "UPPER RIGHT BLOCK DIAGONAL UPPER MIDDLE LEFT TO LOWER RIGHT", aliases: &[] },
        Codepoint { codepoint: 0x1FB56, name: "UPPER RIGHT BLOCK DIAGONAL UPPER LEFT TO LOWER CENTRE", aliases: &[] },
        Codepoint { codepoint: 0x1FB57, name: "UPPER LEFT BLOCK DIAGONAL UPPER MIDDLE LEFT TO UPPER CENTRE", aliases: &[] },
        Codepoint { codepoint: 0x1FB58, name: "UPPER LEFT BLOCK DIAGONAL UPPER MIDDLE LEFT TO UPPER RIGHT", aliases: &[] },
        Codepoint { codepoint: 0x1FB59, name: "UPPER LEFT BLOCK DIAGONAL LOWER MIDDLE LEFT TO UPPER CENTRE", aliases: &[] },
        Codepoint { codepoint: 0x1FB5A, name: "UPPER LEFT BLOCK DIAGONAL LOWER MIDDLE LEFT TO UPPER RIGHT", aliases: &[] },
        Codepoint { codepoint: 0x1FB5B, name: "UPPER LEFT BLOCK DIAGONAL LOWER LEFT TO UPPER CENTRE", aliases: &[] },
        Codepoint { codepoint: 0x1FB5C, name: "UPPER LEFT BLOCK DIAGONAL LOWER MIDDLE LEFT TO UPPER MIDDLE RIGHT", aliases: &[] },
        Codepoint { codepoint: 0x1FB5D, name: "UPPER LEFT BLOCK DIAGONAL LOWER CENTRE TO LOWER MIDDLE RIGHT", aliases: &[] },
        Codepoint { codepoint: 0x1FB5E, name: "UPPER LEFT BLOCK DIAGONAL LOWER LEFT TO LOWER MIDDLE RIGHT", aliases: &[] },
        Codepoint { codepoint: 0x1FB5F, name: "UPPER LEFT BLOCK DIAGONAL LOWER CENTRE TO UPPER MIDDLE RIGHT", aliases: &[] },
        Codepoint { codepoint: 0x1FB60, name: "UPPER LEFT BLOCK DIAGONAL LOWER LEFT TO UPPER MIDDLE RIGHT", aliases: &[] },
        Codepoint { codepoint: 0x1FB61, name: "UPPER LEFT BLOCK DIAGONAL LOWER CENTRE TO UPPER RIGHT", aliases: &[] },
        Codepoint { codepoint: 0x1FB62, name: "UPPER RIGHT BLOCK DIAGONAL UPPER CENTRE TO UPPER MIDDLE RIGHT", aliases: &[] },
        Codepoint { codepoint: 0x1FB63, name: "UPPER RIGHT BLOCK DIAGONAL UPPER LEFT TO UPPER MIDDLE RIGHT", aliases: &[] },
        Codepoint { codepoint: 0x1FB64, name: "UPPER RIGHT BLOCK DIAGONAL UPPER CENTRE TO LOWER MIDDLE RIGHT", aliases: &[] },
        Codepoint { codepoint: 0x1FB65, name: "UPPER RIGHT BLOCK DIAGONAL UPPER LEFT TO LOWER MIDDLE RIGHT", aliases: &[] },
        Codepoint { codepoint: 0x1FB66, name: "UPPER RIGHT BLOCK DIAGONAL UPPER CENTRE TO LOWER RIGHT", aliases: &[] },
        Codepoint { codepoint: 0x1FB67, name: "UPPER RIGHT BLOCK DIAGONAL UPPER MIDDLE LEFT TO LOWER MIDDLE RIGHT", aliases: &[] },
        Codepoint { codepoint: 0x1FB68, name: "UPPER AND RIGHT AND LOWER TRIANGULAR THREE QUARTERS BLOCK", aliases: &[] },
        Codepoint { codepoint: 0x1FB69, name: "LEFT AND LOWER AND RIGHT TRIANGULAR THREE QUARTERS BLOCK", aliases: &[] },
        Codepoint { codepoint: 0x1FB6A, name: "UPPER AND LEFT AND LOWER TRIANGULAR THREE QUARTERS BLOCK", aliases: &[] },
        Codepoint { codepoint: 0x1FB6B, name: "LEFT AND UPPER AND RIGHT TRIANGULAR THREE QUARTERS BLOCK", aliases: &[] },
        Codepoint { codepoint: 0x1FB6C, name: "LEFT TRIANGULAR ONE QUARTER BLOCK", aliases: &[] },
        Codepoint { codepoint: 0x1FB6D, name: "UPPER TRIANGULAR ONE QUARTER BLOCK", aliases: &[] },
        Codepoint { codepoint: 0x1FB6E, name: "RIGHT TRIANGULAR ONE QUARTER BLOCK", aliases: &[] },
        Codepoint { codepoint: 0x1FB6F, name: "LOWER TRIANGULAR ONE QUARTER BLOCK", aliases: &[] },
        Codepoint { codepoint: 0x1FB70, name: "VERTICAL ONE EIGHTH BLOCK-2", aliases: &[] },
        Codepoint { codepoint: 0x1FB71, name: "VERTICAL ONE EIGHTH BLOCK-3", aliases: &[] },
        Codepoint { codepoint: 0x1FB72, name: "VERTICAL ONE EIGHTH BLOCK-4", aliases: &[] },
        Codepoint { codepoint: 0x1FB73, name: "VERTICAL ONE EIGHTH BLOCK-5", aliases: &[] },
        Codepoint { codepoint: 0x1FB74, name: "VERTICAL ONE EIGHTH BLOCK-6", aliases: &[] },
        Codepoint { codepoint: 0x1FB75, name: "VERTICAL ONE EIGHTH BLOCK-7", aliases: &[] },
        Codepoint { codepoint: 0x1FB76, name: "HORIZONTAL ONE EIGHTH BLOCK-2", aliases: &[] },
        Codepoint { codepoint: 0x1FB77, name: "HORIZONTAL ONE EIGHTH BLOCK-3", aliases: &[] },
        Codepoint { codepoint: 0x1FB78, name: "HORIZONTAL ONE EIGHTH BLOCK-4", aliases: &[] },
    ];
    assert(v@ =~= codepoint_table_840());
    v
}

pub open spec fn codepoint_table_841() -> Seq<Codepoint> {
    seq![
        Codepoint { codepoint: 0x1FB79, name: "HORIZONTAL ONE EIGHTH BLOCK-5", aliases: &[] },
        Codepoint { codepoint: 0x1FB7A, name: "HORIZONTAL ONE EIGHTH BLOCK-6", aliases: &[] },
        Codepoint { codepoint: 0x1FB7B, name: "HORIZONTAL ONE EIGHTH BLOCK-7", aliases: &[] },
        Codepoint { codepoint: 0x1FB7C, name: "LEFT AND LOWER ONE EIGHTH BLOCK", aliases: &[] },
        Codepoint { codepoint: 0x1FB7D, name: "LEFT AND UPPER ONE EIGHTH BLOCK", aliases: &[] },
        Codepoint { codepoint: 0x1FB7E, name: "RIGHT AND UPPER ONE EIGHTH BLOCK", aliases: &[] },
        Codepoint { codepoint: 0x1FB7F, name: "RIGHT AND LOWER ONE EIGHTH BLOCK", aliases: &[] },
        Codepoint { codepoint: 0x1FB80, name: "UPPER AND LOWER ONE EIGHTH BLOCK", aliases: &[] },
        Codepoint { codepoint: 0x1FB81, name: "HORIZONTAL ONE EIGHTH BLOCK-1358", aliases: &[] },
        Codepoint { codepoint: 0x1FB82, name: "UPPER ONE QUARTER BLOCK", aliases: &[] },
        Codepoint { codepoint: 0x1FB83, name: "UPPER THREE EIGHTHS BLOCK", aliases: &[] },
        Codepoint { codepoint: 0x1FB84, name: "UPPER FIVE EIGHTHS BLOCK", aliases: &[] },
        Codepoint { codepoint: 0x1FB85, name: "UPPER THREE QUARTERS BLOCK", aliases: &[] },
        Codepoint { codepoint: 0x1FB86, name: "UPPER SEVEN EIGHTHS BLOCK", aliases: &[] },
        Codepoint { codepoint: 0x1FB87, name: "RIGHT ONE QUARTER BLOCK", aliases: &[] },
        Codepoint { codepoint: 0x1FB88, name: "RIGHT THREE EIGHTHS BLOCK", aliases: &[] },
        Codepoint { codepoint: 0x1FB89, name: "RIGHT FIVE EIGHTHS BLOCK", aliases: &[] },
        Codepoint { codepoint: 0x1FB8A, name: "RIGHT THREE QUARTERS BLOCK", aliases: &[] },
        Codepoint { codepoint: 0x1FB8B, name: "RIGHT SEVEN EIGHTHS BLOCK", aliases: &[] },
        Codepoint { codepoint: 0x1FB8C, name: "LEFT HALF MEDIUM SHADE", aliases: &[] },
        Codepoint { codepoint: 0x1FB8D, name: "RIGHT HALF MEDIUM SHADE", aliases: &[] },
        Codepoint { codepoint: 0x1FB8E, name: "UPPER HALF MEDIUM SHADE", aliases: &[] },
        Codepoint { codepoint: 0x1FB8F, name: "LOWER HALF MEDIUM SHADE", aliases: &[] },
        Codepoint { codepoint: 0x1FB90, name: "INVERSE MEDIUM SHADE", aliases: &[] },
        Codepoint { codepoint: 0x1FB91, name: "UPPER HALF BLOCK AND LOWER HALF INVERSE MEDIUM SHADE", aliases: &[] },
        Codepoint { codepoint: 0x1FB92, name: "UPPER HALF INVERSE MEDIUM SHADE AND LOWER HALF BLOCK", aliases: &[] },
        Codepoint { codepoint: 0x1FB94, name: "LEFT HALF INVERSE MEDIUM SHADE AND RIGHT HALF BLOCK", aliases: &[] },
        Codepoint { codepoint: 0x1FB95, name: "CHECKER BOARD FILL", aliases: &[] },
        Codepoint { codepoint: 0x1FB96, name: "INVERSE CHECKER BOARD FILL", aliases: &[] },
        Codepoint { codepoint: 0x1FB97, name: "HEAVY HORIZONTAL FILL", aliases: &[] },
        Codepoint { codepoint: 0x1FB98, name: "UPPER LEFT TO LOWER RIGHT FILL", aliases: &[] },
        Codepoint { codepoint: 0x1FB99, name: "UPPER RIGHT TO LOWER LEFT FILL", aliases: &[] },
        Codepoint { codepoint: 0x1FB9A, name: "UPPER AND LOWER TRIANGULAR HALF BLOCK", aliases: &[] },
        Codepoint { codepoint: 0x1FB9B, name: "LEFT AND RIGHT TRIANGULAR HALF BLOCK", aliases: &[] },
        Codepoint { codepoint: 0x1FB9C, name: "UPPER LEFT TRIANGULAR MEDIUM SHADE", aliases: &[] },
        Codepoint { codepoint: 0x1FB9D, name: "UPPER RIGHT TRIANGULAR MEDIUM SHADE", aliases: &[] },
        Codepoint { codepoint: 0x1FB9E, name: "LOWER RIGHT TRIANGULAR MEDIUM SHADE", aliases: &[] },
        Codepoint { codepoint: 0x1FB9F, name: "LOWER LEFT TRIANGULAR MEDIUM SHADE", aliases: &[] },
        Codepoint { codepoint: 0x1FBA0, name: "BOX DRAWINGS LIGHT DIAGONAL UPPER CENTRE TO MIDDLE LEFT", aliases: &[] },
        Codepoint { codepoint: 0x1FBA1, name: "BOX DRAWINGS LIGHT DIAGONAL UPPER CENTRE TO MIDDLE RIGHT", aliases: &[] },
    ]
}

fn all_codepoints_841() -> (v: Vec<Codepoint>)
    ensures
        v@ == codepoint_table_841(),
{
    let v = vec![
        Codepoint { codepoint: 0x1FB79, name: "HORIZONTAL ONE EIGHTH BLOCK-5", aliases: &[] },
        Codepoint { codepoint: 0x1FB7A, name: "HORIZONTAL ONE EIGHTH BLOCK-6", aliases: &[] },
        Codepoint { codepoint: 0x1FB7B, name: "HORIZONTAL ONE EIGHTH BLOCK-7", aliases: &[] },
        Codepoint { codepoint: 0x1FB7C, name: "LEFT AND LOWER ONE EIGHTH BLOCK", aliases: &[] },
        Codepoint { codepoint: 0x1FB7D, name: "LEFT AND UPPER ONE EIGHTH BLOCK", aliases: &[] },
        Codepoint { codepoint: 0x1FB7E, name: "RIGHT AND UPPER ONE EIGHTH BLOCK", aliases: &[] },
        Codepoint { codepoint: 0x1FB7F, name: "RIGHT AND LOWER ONE EIGHTH BLOCK", aliases: &[] },
        Codepoint { codepoint: 0x1FB80, name: "UPPER AND LOWER ONE EIGHTH BLOCK", aliases: &[] },
        Codepoint { codepoint: 0x1FB81, name: "HORIZONTAL ONE EIGHTH BLOCK-1358", aliases: &[] },
        Codepoint { codepoint: 0x1FB82, name: "UPPER ONE QUARTER BLOCK", aliases: &[] },
        Codepoint { codepoint: 0x1FB83, name: "UPPER THREE EIGHTHS BLOCK", aliases: &[] },
        Codepoint { codepoint: 0x1FB84, name: "UPPER FIVE EIGHTHS BLOCK", aliases: &[] },
        Codepoint { codepoint: 0x1FB85, name: "UPPER THREE QUARTERS BLOCK", aliases: &[] },
        Codepoint { codepoint: 0x1FB86, name: "UPPER SEVEN EIGHTHS BLOCK", aliases: &[] },
        Codepoint { codepoint: 0x1FB87, name: "RIGHT ONE QUARTER BLOCK", aliases: &[] },
        Codepoint { codepoint: 0x1FB88, name: "RIGHT THREE EIGHTHS BLOCK", aliases: &[] },
        Codepoint { codepoint: 0x1FB89, name: "RIGHT FIVE EIGHTHS BLOCK", aliases: &[] },
        Codepoint { codepoint: 0x1FB8A, name: "RIGHT THREE QUARTERS BLOCK", aliases: &[] },
        Codepoint { codepoint: 0x1FB8B, name: "RIGHT SEVEN EIGHTHS BLOCK", aliases: &[] },
        Codepoint { codepoint: 0x1FB8C, name: "LEFT HALF MEDIUM SHADE", aliases: &[] },
        Codepoint { codepoint: 0x1FB8D, name: "RIGHT HALF MEDIUM SHADE", aliases: &[] },
        Codepoint { codepoint: 0x1FB8E, name: "UPPER HALF MEDIUM SHADE", aliases: &[] },
        Codepoint { codepoint: 0x1FB8F, name: "LOWER HALF MEDIUM SHADE", aliases: &[] },
        Codepoint { codepoint: 0x1FB90, name: "INVERSE MEDIUM SHADE", aliases: &[] },
        Codepoint { codepoint: 0x1FB91, name: "UPPER HALF BLOCK AND LOWER HALF INVERSE MEDIUM SHADE", aliases: &[] },
        Codepoint { codepoint: 0x1FB92, name: "UPPER HALF INVERSE MEDIUM SHADE AND LOWER HALF BLOCK", aliases: &[] },
        Codepoint { codepoint: 0x1FB94, name: "LEFT HALF INVERSE MEDIUM SHADE AND RIGHT HALF BLOCK", aliases: &[] },
        Codepoint { codepoint: 0x1FB95, name: "CHECKER BOARD FILL", aliases: &[] },
        Codepoint { codepoint: 0x1FB96, name: "INVERSE CHECKER BOARD FILL", aliases: &[] },
        Codepoint { codepoint: 0x1FB97, name: "HEAVY HORIZONTAL FILL", aliases: &[] },
        Codepoint { codepoint: 0x1FB98, name: "UPPER LEFT TO LOWER RIGHT FILL", aliases: &[] },
        Codepoint { codepoint: 0x1FB99, name: "UPPER RIGHT TO LOWER LEFT FILL", aliases: &[] },
        Codepoint { codepoint: 0x1FB9A, name: "UPPER AND LOWER TRIANGULAR HALF BLOCK", aliases: &[] },
        Codepoint { codepoint: 0x1FB9B, name: "LEFT AND RIGHT TRIANGULAR HALF BLOCK", aliases: &[] },
        Codepoint { codepoint: 0x1FB9C, name: "UPPER LEFT TRIANGULAR MEDIUM SHADE", aliases: &[] },
        Codepoint { codepoint: 0x1FB9D, name: "UPPER RIGHT TRIANGULAR MEDIUM SHADE", aliases: &[] },
        Codepoint { codepoint: 0x1FB9E, name: "LOWER RIGHT TRIANGULAR MEDIUM SHADE", aliases: &[] },
        Codepoint { codepoint: 0x1FB9F, name: "LOWER LEFT TRIANGULAR MEDIUM SHADE", aliases: &[] },
        Codepoint { codepoint: 0x1FBA0, name: "BOX DRAWINGS LIGHT DIAGONAL UPPER CENTRE TO MIDDLE LEFT", aliases: &[] },
        Codepoint { codepoint: 0x1FBA1, name: "BOX DRAWINGS LIGHT DIAGONAL UPPER CENTRE TO MIDDLE RIGHT", aliases: &[] },
    ];
    assert(v@ =~= codepoint_table_841());
    v
}

pub open spec fn codepoint_table_842() -> Seq<Codepoint> {
    seq![
        Codepoint { codepoint: 0x1FBA2, name: "BOX DRAWINGS LIGHT DIAGONAL MIDDLE LEFT TO LOWER CENTRE", aliases: &[] },
        Codepoint { codepoint: 0x1FBA3, name: "BOX DRAWINGS LIGHT DIAGONAL MIDDLE RIGHT TO LOWER CENTRE", aliases: &[] },
        Codepoint { codepoint: 0x1FBA4, name: "BOX DRAWINGS LIGHT DIAGONAL UPPER CENTRE TO MIDDLE LEFT TO LOWER CENTRE", aliases: &[] },
        Codepoint { codepoint: 0x1FBA5, name: "BOX DRAWINGS LIGHT DIAGONAL UPPER CENTRE TO MIDDLE RIGHT TO LOWER CENTRE", aliases: &[] },
        Codepoint { codepoint: 0x1FBA6, name: "BOX DRAWINGS LIGHT DIAGONAL MIDDLE LEFT TO LOWER CENTRE TO MIDDLE RIGHT", aliases: &[] },
        Codepoint { codepoint: 0x1FBA7, name: "BOX DRAWINGS LIGHT DIAGONAL MIDDLE LEFT TO UPPER CENTRE TO MIDDLE RIGHT", aliases: &[] },
        Codepoint { codepoint: 0x1FBA8, name: "BOX DRAWINGS LIGHT DIAGONAL UPPER CENTRE TO MIDDLE LEFT AND MIDDLE RIGHT TO LOWER CENTRE", aliases: &[] },
        Codepoint { codepoint: 0x1FBA9, name: "BOX DRAWINGS LIGHT DIAGONAL UPPER CENTRE TO MIDDLE RIGHT AND MIDDLE LEFT TO LOWER CENTRE", aliases: &[] },
        Codepoint { codepoint: 0x1FBAA, name: "BOX DRAWINGS LIGHT DIAGONAL UPPER CENTRE TO MIDDLE RIGHT TO LOWER CENTRE TO MIDDLE LEFT", aliases: &[] },
        Codepoint { codepoint: 0x1FBAB, name: "BOX DRAWINGS LIGHT DIAGONAL UPPER CENTRE TO MIDDLE LEFT TO LOWER CENTRE TO MIDDLE RIGHT", aliases: &[] },
        Codepoint { codepoint: 0x1FBAC, name: "BOX DRAWINGS LIGHT DIAGONAL MIDDLE LEFT TO UPPER CENTRE TO MIDDLE RIGHT TO LOWER CENTRE", aliases: &[] },
        Codepoint { codepoint: 0x1FBAD, name: "BOX DRAWINGS LIGHT DIAGONAL MIDDLE RIGHT TO UPPER CENTRE TO MIDDLE LEFT TO LOWER CENTRE", aliases: &[] },
        Codepoint { codepoint: 0x1FBAE, name: "BOX DRAWINGS LIGHT DIAGONAL DIAMOND", aliases: &[] },
        Codepoint { codepoint: 0x1FBAF, name: "BOX DRAWINGS LIGHT HORIZONTAL WITH VERTICAL STROKE", aliases: &[] },
        Codepoint { codepoint: 0x1FBB0, name: "ARROWHEAD-SHAPED POINTER", aliases: &[] },
        Codepoint { codepoint: 0x1FBB1, name: "INVERSE CHECK MARK", aliases: &[] },
        Codepoint { codepoint: 0x1FBB2, name: "LEFT HALF RUNNING MAN", aliases: &[] },
        Codepoint { codepoint: 0x1FBB3, name: "RIGHT HALF RUNNING MAN", aliases: &[] },
        Codepoint { codepoint: 0x1FBB4, name: "INVERSE DOWNWARDS ARROW WITH TIP LEFTWARDS", aliases: &[] },
        Codepoint { codepoint: 0x1FBB5, name: "LEFTWARDS ARROW AND UPPER AND LOWER ONE EIGHTH BLOCK", aliases: &[] },
        Codepoint { codepoint: 0x1FBB6, name: "RIGHTWARDS ARROW AND UPPER AND LOWER ONE EIGHTH BLOCK", aliases: &[] },
        Codepoint { codepoint: 0x1FBB7, name: "DOWNWARDS ARROW AND RIGHT ONE EIGHTH BLOCK", aliases: &[] },
        Codepoint { codepoint: 0x1FBB8, name: "UPWARDS ARROW AND RIGHT ONE EIGHTH BLOCK", aliases: &[] },
        Codepoint { codepoint: 0x1FBB9, name: "LEFT HALF FOLDER", aliases: &[] },
        Codepoint { codepoint: 0x1FBBA, name: "RIGHT HALF FOLDER", aliases: &[] },
        Codepoint { codepoint: 0x1FBBB, name: "VOIDED GREEK CROSS", aliases: &[] },
        Codepoint { codepoint: 0x1FBBC, name: "RIGHT OPEN SQUARED DOT", aliases: &[] },
        Codepoint { codepoint: 0x1FBBD, name: "NEGATIVE DIAGONAL CROSS", aliases: &[] },
        Codepoint { codepoint: 0x1FBBE, name: "NEGATIVE DIAGONAL MIDDLE RIGHT TO LOWER CENTRE", aliases: &[] },
        Codepoint { codepoint: 0x1FBBF, name: "NEGATIVE DIAGONAL DIAMOND", aliases: &[] },
        Codepoint { codepoint: 0x1FBC0, name: "WHITE HEAVY SALTIRE WITH ROUNDED CORNERS", aliases: &[] },
        Codepoint { codepoint: 0x1FBC1, name: "LEFT THIRD WHITE RIGHT POINTING INDEX", aliases: &[] },
        Codepoint { codepoint: 0x1FBC2, name: "MIDDLE THIRD WHITE RIGHT POINTING INDEX", aliases: &[] },
        Codepoint { codepoint: 0x1FBC3, name: "RIGHT THIRD WHITE RIGHT POINTING INDEX", aliases: &[] },
        Codepoint { codepoint: 0x1FBC4, name: "NEGATIVE SQUARED QUESTION MARK", aliases: &[] },
        Codepoint { codepoint: 0x1FBC5, name: "STICK FIGURE", aliases: &[] },
        Codepoint { codepoint: 0x1FBC6, name: "STICK FIGURE WITH ARMS RAISED", aliases: &[] },
        Codepoint { codepoint: 0x1FBC7, name: "STICK FIGURE LEANING LEFT", aliases: &[] },
        Codepoint { codepoint: 0x1FBC8, name: "STICK FIGURE LEANING RIGHT", aliases: &[] },
        Codepoint { codepoint: 0x1FBC9, name: "STICK FIGURE WITH DRESS", aliases: &[] },
    ]
}

fn all_codepoints_842() -> (v: Vec<Codepoint>)
    ensures
        v@ == codepoint_table_842(),
{
    let v = vec![
        Codepoint { codepoint: 0x1FBA2, name: "BOX DRAWINGS LIGHT DIAGONAL MIDDLE LEFT TO LOWER CENTRE", aliases: &[] },
        Codepoint { codepoint: 0x1FBA3, name: "BOX DRAWINGS LIGHT DIAGONAL MIDDLE RIGHT TO LOWER CENTRE", aliases: &[] },
        Codepoint { codepoint: 0x1FBA4, name: "BOX DRAWINGS LIGHT DIAGONAL UPPER CENTRE TO MIDDLE LEFT TO LOWER CENTRE", aliases: &[] },
        Codepoint { codepoint: 0x1FBA5, name: "BOX DRAWINGS LIGHT DIAGONAL UPPER CENTRE TO MIDDLE RIGHT TO LOWER CENTRE", aliases: &[] },
        Codepoint { codepoint: 0x1FBA6, name: "BOX DRAWINGS LIGHT DIAGONAL MIDDLE LEFT TO LOWER CENTRE TO MIDDLE RIGHT", aliases: &[] },
        Codepoint { codepoint: 0x1FBA7, name: "BOX DRAWINGS LIGHT DIAGONAL MIDDLE LEFT TO UPPER CENTRE TO MIDDLE RIGHT", aliases: &[] },
        Codepoint { codepoint: 0x1FBA8, name: "BOX DRAWINGS LIGHT DIAGONAL UPPER CENTRE TO MIDDLE LEFT AND MIDDLE RIGHT TO LOWER CENTRE", aliases: &[] },
        Codepoint { codepoint: 0x1FBA9, name: "BOX DRAWINGS LIGHT DIAGONAL UPPER CENTRE TO MIDDLE RIGHT AND MIDDLE LEFT TO LOWER CENTRE", aliases: &[] },
        Codepoint { codepoint: 0x1FBAA, name: "BOX DRAWINGS LIGHT DIAGONAL UPPER CENTRE TO MIDDLE RIGHT TO LOWER CENTRE TO MIDDLE LEFT", aliases: &[] },
        Codepoint { codepoint: 0x1FBAB, name: "BOX DRAWINGS LIGHT DIAGONAL UPPER CENTRE TO MIDDLE LEFT TO LOWER CENTRE TO MIDDLE RIGHT", aliases: &[] },
        Codepoint { codepoint: 0x1FBAC, name: "BOX DRAWINGS LIGHT DIAGONAL MIDDLE LEFT TO UPPER CENTRE TO MIDDLE RIGHT TO LOWER CENTRE", aliases: &[] },
        Codepoint { codepoint: 0x1FBAD, name: "BOX DRAWINGS LIGHT DIAGONAL MIDDLE RIGHT TO UPPER CENTRE TO MIDDLE LEFT TO LOWER CENTRE", aliases: &[] },
        Codepoint { codepoint: 0x1FBAE, name: "BOX DRAWINGS LIGHT DIAGONAL DIAMOND", aliases: &[] },
        Codepoint { codepoint: 0x1FBAF, name: "BOX DRAWINGS LIGHT HORIZONTAL WITH VERTICAL STROKE", aliases: &[] },
        Codepoint { codepoint: 0x1FBB0, name: "ARROWHEAD-SHAPED POINTER", aliases: &[] },
        Codepoint { codepoint: 0x1FBB1, name: "INVERSE CHECK MARK", aliases: &[] },
        Codepoint { codepoint: 0x1FBB2, name: "LEFT HALF RUNNING MAN", aliases: &[] },
        Codepoint { codepoint: 0x1FBB3, name: "RIGHT HALF RUNNING MAN", aliases: &[] },
        Codepoint { codepoint: 0x1FBB4, name: "INVERSE DOWNWARDS ARROW WITH TIP LEFTWARDS", aliases: &[] },
        Codepoint { codepoint: 0x1FBB5, name: "LEFTWARDS ARROW AND UPPER AND LOWER ONE EIGHTH BLOCK", aliases: &[] },
        Codepoint { codepoint: 0x1FBB6, name: "RIGHTWARDS ARROW AND UPPER AND LOWER ONE EIGHTH BLOCK", aliases: &[] },
        Codepoint { codepoint: 0x1FBB7, name: "DOWNWARDS ARROW AND RIGHT ONE EIGHTH BLOCK", aliases: &[] },
        Codepoint { codepoint: 0x1FBB8, name: "UPWARDS ARROW AND RIGHT ONE EIGHTH BLOCK", aliases: &[] },
        Codepoint { codepoint: 0x1FBB9, name: "LEFT HALF FOLDER", aliases: &[] },
        Codepoint { codepoint: 0x1FBBA, name: "RIGHT HALF FOLDER", aliases: &[] },
        Codepoint { codepoint: 0x1FBBB, name: "VOIDED GREEK CROSS", aliases: &[] },
        Codepoint { codepoint: 0x1FBBC, name: "RIGHT OPEN SQUARED DOT", aliases: &[] },
        Codepoint { codepoint: 0x1FBBD, name: "NEGATIVE DIAGONAL CROSS", aliases: &[] },
        Codepoint { codepoint: 0x1FBBE, name: "NEGATIVE DIAGONAL MIDDLE RIGHT TO LOWER CENTRE", aliases: &[] },
        Codepoint { codepoint: 0x1FBBF, name: "NEGATIVE DIAGONAL DIAMOND", aliases: &[] },
        Codepoint { codepoint: 0x1FBC0, name: "WHITE HEAVY SALTIRE WITH ROUNDED CORNERS", aliases: &[] },
        Codepoint { codepoint: 0x1FBC1, name: "LEFT THIRD WHITE RIGHT POINTING INDEX", aliases: &[] },
        Codepoint { codepoint: 0x1FBC2, name: "MIDDLE THIRD WHITE RIGHT POINTING INDEX", aliases: &[] },
        Codepoint { codepoint: 0x1FBC3, name: "RIGHT THIRD WHITE RIGHT POINTING INDEX", aliases: &[] },
        Codepoint { codepoint: 0x1FBC4, name: "NEGATIVE SQUARED QUESTION MARK", aliases: &[] },
        Codepoint { codepoint: 0x1FBC5, name: "STICK FIGURE", aliases: &[] },
        Codepoint { codepoint: 0x1FBC6, name: "STICK FIGURE WITH ARMS RAISED", aliases: &[] },
        Codepoint { codepoint: 0x1FBC7, name: "STICK FIGURE LEANING LEFT", aliases: &[] },
        Codepoint { codepoint: 0x1FBC8, name: "STICK FIGURE LEANING RIGHT", aliases: &[] },
        Codepoint { codepoint: 0x1FBC9, name: "STICK FIGURE WITH DRESS", aliases: &[] },
    ];
    assert(v@ =~= codepoint_table_842());
    v
}

pub open spec fn codepoint_table_843() -> Seq<Codepoint> {
    seq![
        Codepoint { codepoint: 0x1FBCA, name: "WHITE UP-POINTING CHEVRON", aliases: &[] },
        Codepoint { codepoint: 0x1FBF0, name: "SEGMENTED DIGIT ZERO", aliases: &[] },
        Codepoint { codepoint: 0x1FBF1, name: "SEGMENTED DIGIT ONE", aliases: &[] },
        Codepoint { codepoint: 0x1FBF2, name: "SEGMENTED DIGIT TWO", aliases: &[] },
        Codepoint { codepoint: 0x1FBF3, name: "SEGMENTED DIGIT THREE", aliases: &[] },
        Codepoint { codepoint: 0x1FBF4, name: "SEGMENTED DIGIT FOUR", aliases: &[] },
        Codepoint { codepoint: 0x1FBF5, name: "SEGMENTED DIGIT FIVE", aliases: &[] },
        Codepoint { codepoint: 0x1FBF6, name: "SEGMENTED DIGIT SIX", aliases: &[] },
        Codepoint { codepoint: 0x1FBF7, name: "SEGMENTED DIGIT SEVEN", aliases: &[] },
        Codepoint { codepoint: 0x1FBF8, name: "SEGMENTED DIGIT EIGHT", aliases: &[] },
        Codepoint { codepoint: 0x1FBF9, name: "SEGMENTED DIGIT NINE", aliases: &[] },
        Codepoint { codepoint: 0x20000, name: "<CJK Ideograph Extension B, First>", aliases: &[] },
        Codepoint { codepoint: 0x2A6DF, name: "<CJK Ideograph Extension B, Last>", aliases: &[] },
        Codepoint { codepoint: 0x2A700, name: "<CJK Ideograph Extension C, First>", aliases: &[] },
        Codepoint { codepoint: 0x2B738, name: "<CJK Ideograph Extension C, Last>", aliases: &[] },
        Codepoint { codepoint: 0x2B740, name: "<CJK Ideograph Extension D, First>", aliases: &[] },
        Codepoint { codepoint: 0x2B81D, name: "<CJK Ideograph Extension D, Last>", aliases: &[] },
        Codepoint { codepoint: 0x2B820, name: "<CJK Ideograph Extension E, First>", aliases: &[] },
        Codepoint { codepoint: 0x2CEA1, name: "<CJK Ideograph Extension E, Last>", aliases: &[] },
        Codepoint { codepoint: 0x2CEB0, name: "<CJK Ideograph Extension F, First>", aliases: &[] },
        Codepoint { codepoint: 0x2EBE0, name: "<CJK Ideograph Extension F, Last>", aliases: &[] },
        Codepoint { codepoint: 0x2F800, name: "CJK COMPATIBILITY IDEOGRAPH-2F800", aliases: &[] },
        Codepoint { codepoint: 0x2F801, name: "CJK COMPATIBILITY IDEOGRAPH-2F801", aliases: &[] },
        Codepoint { codepoint: 0x2F802, name: "CJK COMPATIBILITY IDEOGRAPH-2F802", aliases: &[] },
        Codepoint { codepoint: 0x2F803, name: "CJK COMPATIBILITY IDEOGRAPH-2F803", aliases: &[] },
        Codepoint { codepoint: 0x2F804, name: "CJK COMPATIBILITY IDEOGRAPH-2F804", aliases: &[] },
        Codepoint { codepoint: 0x2F805, name: "CJK COMPATIBILITY IDEOGRAPH-2F805", aliases: &[] },
        Codepoint { codepoint: 0x2F806, name: "CJK COMPATIBILITY IDEOGRAPH-2F806", aliases: &[] },
        Codepoint { codepoint: 0x2F807, name: "CJK COMPATIBILITY IDEOGRAPH-2F807", aliases: &[] },
        Codepoint { codepoint: 0x2F808, name: "CJK COMPATIBILITY IDEOGRAPH-2F808", aliases: &[] },
        Codepoint { codepoint: 0x2F809, name: "CJK COMPATIBILITY IDEOGRAPH-2F809", aliases: &[] },
        Codepoint { codepoint: 0x2F80A, name: "CJK COMPATIBILITY IDEOGRAPH-2F80A", aliases: &[] },
        Codepoint { codepoint: 0x2F80B, name: "CJK COMPATIBILITY IDEOGRAPH-2F80B", aliases: &[] },
        Codepoint { codepoint: 0x2F80C, name: "CJK COMPATIBILITY IDEOGRAPH-2F80C", aliases: &[] },
        Codepoint { codepoint: 0x2F80D, name: "CJK COMPATIBILITY IDEOGRAPH-2F80D", aliases: &[] },
        Codepoint { codepoint: 0x2F80E, name: "CJK COMPATIBILITY IDEOGRAPH-2F80E", aliases: &[] },
        Codepoint { codepoint: 0x2F80F, name: "CJK COMPATIBILITY IDEOGRAPH-2F80F", aliases: &[] },
        Codepoint { codepoint: 0x2F810, name: "CJK COMPATIBILITY IDEOGRAPH-2F810", aliases: &[] },
        Codepoint { codepoint: 0x2F811, name: "CJK COMPATIBILITY IDEOGRAPH-2F811", aliases: &[] },
        Codepoint { codepoint: 0x2F812, name: "CJK COMPATIBILITY IDEOGRAPH-2F812", aliases: &[] },
    ]
}

fn all_codepoints_843() -> (v: Vec<Codepoint>)
    ensures
        v@ == codepoint_table_843(),
{
    let v = vec![
        Codepoint { codepoint: 0x1FBCA, name: "WHITE UP-POINTING CHEVRON", aliases: &[] },
        Codepoint { codepoint: 0x1FBF0, name: "SEGMENTED DIGIT ZERO", aliases: &[] },
        Codepoint { codepoint: 0x1FBF1, name: "SEGMENTED DIGIT ONE", aliases: &[] },
        Codepoint { codepoint: 0x1FBF2, name: "SEGMENTED DIGIT TWO", aliases: &[] },
        Codepoint { codepoint: 0x1FBF3, name: "SEGMENTED DIGIT THREE", aliases: &[] },
        Codepoint { codepoint: 0x1FBF4, name: "SEGMENTED DIGIT FOUR", aliases: &[] },
        Codepoint { codepoint: 0x1FBF5, name: "SEGMENTED DIGIT FIVE", aliases: &[] },
        Codepoint { codepoint: 0x1FBF6, name: "SEGMENTED DIGIT SIX", aliases: &[] },
        Codepoint { codepoint: 0x1FBF7, name: "SEGMENTED DIGIT SEVEN", aliases: &[] },
        Codepoint { codepoint: 0x1FBF8, name: "SEGMENTED DIGIT EIGHT", aliases: &[] },
        Codepoint { codepoint: 0x1FBF9, name: "SEGMENTED DIGIT NINE", aliases: &[] },
        Codepoint { codepoint: 0x20000, name: "<CJK Ideograph Extension B, First>", aliases: &[] },
        Codepoint { codepoint: 0x2A6DF, name: "<CJK Ideograph Extension B, Last>", aliases: &[] },
        Codepoint { codepoint: 0x2A700, name: "<CJK Ideograph Extension C, First>", aliases: &[] },
        Codepoint { codepoint: 0x2B738, name: "<CJK Ideograph Extension C, Last>", aliases: &[] },
        Codepoint { codepoint: 0x2B740, name: "<CJK Ideograph Extension D, First>", aliases: &[] },
        Codepoint { codepoint: 0x2B81D, name: "<CJK Ideograph Extension D, Last>", aliases: &[] },
        Codepoint { codepoint: 0x2B820, name: "<CJK Ideograph Extension E, First>", aliases: &[] },
        Codepoint { codepoint: 0x2CEA1, name: "<CJK Ideograph Extension E, Last>", aliases: &[] },
        Codepoint { codepoint: 0x2CEB0, name: "<CJK Ideograph Extension F, First>", aliases: &[] },
        Codepoint { codepoint: 0x2EBE0, name: "<CJK Ideograph Extension F, Last>", aliases: &[] },
        Codepoint { codepoint: 0x2F800, name: "CJK COMPATIBILITY IDEOGRAPH-2F800", aliases: &[] },
        Codepoint { codepoint: 0x2F801, name: "CJK COMPATIBILITY IDEOGRAPH-2F801", aliases: &[] },
        Codepoint { codepoint: 0x2F802, name: "CJK COMPATIBILITY IDEOGRAPH-2F802", aliases: &[] },
        Codepoint { codepoint: 0x2F803, name: "CJK COMPATIBILITY IDEOGRAPH-2F803", aliases: &[] },
        Codepoint { codepoint: 0x2F804, name: "CJK COMPATIBILITY IDEOGRAPH-2F804", aliases: &[] },
        Codepoint { codepoint: 0x2F805, name: "CJK COMPATIBILITY IDEOGRAPH-2F805", aliases: &[] },
        Codepoint { codepoint: 0x2F806, name: "CJK COMPATIBILITY IDEOGRAPH-2F806", aliases: &[] },
        Codepoint { codepoint: 0x2F807, name: "CJK COMPATIBILITY IDEOGRAPH-2F807", aliases: &[] },
        Codepoint { codepoint: 0x2F808, name: "CJK COMPATIBILITY IDEOGRAPH-2F808", aliases: &[] },
        Codepoint { codepoint: 0x2F809, name: "CJK COMPATIBILITY IDEOGRAPH-2F809", aliases: &[] },
        Codepoint { codepoint: 0x2F80A, name: "CJK COMPATIBILITY IDEOGRAPH-2F80A", aliases: &[] },
        Codepoint { codepoint: 0x2F80B, name: "CJK COMPATIBILITY IDEOGRAPH-2F80B", aliases: &[] },
        Codepoint { codepoint: 0x2F80C, name: "CJK COMPATIBILITY IDEOGRAPH-2F80C", aliases: &[] },
        Codepoint { codepoint: 0x2F80D, name: "CJK COMPATIBILITY IDEOGRAPH-2F80D", aliases: &[] },
        Codepoint { codepoint: 0x2F80E, name: "CJK COMPATIBILITY IDEOGRAPH-2F80E", aliases: &[] },
        Codepoint { codepoint: 0x2F80F, name: "CJK COMPATIBILITY IDEOGRAPH-2F80F", aliases: &[] },
        Codepoint { codepoint: 0x2F810, name: "CJK COMPATIBILITY IDEOGRAPH-2F810", aliases: &[] },
        Codepoint { codepoint: 0x2F811, name: "CJK COMPATIBILITY IDEOGRAPH-2F811", aliases: &[] },
        Codepoint { codepoint: 0x2F812, name: "CJK COMPATIBILITY IDEOGRAPH-2F812", aliases: &[] },
    ];
    assert(v@ =~= codepoint_table_843());
    v
}

pub open spec fn codepoint_table_844() -> Seq<Codepoint> {
    seq![
        Codepoint { codepoint: 0x2F813, name: "CJK COMPATIBILITY IDEOGRAPH-2F813", aliases: &[] },
        Codepoint { codepoint: 0x2F814, name: "CJK COMPATIBILITY IDEOGRAPH-2F814", aliases: &[] },
        Codepoint { codepoint: 0x2F815, name: "CJK COMPATIBILITY IDEOGRAPH-2F815", aliases: &[] },
        Codepoint { codepoint: 0x2F816, name: "CJK COMPATIBILITY IDEOGRAPH-2F816", aliases: &[] },
        Codepoint { codepoint: 0x2F817, name: "CJK COMPATIBILITY IDEOGRAPH-2F817", aliases: &[] },
        Codepoint { codepoint: 0x2F818, name: "CJK COMPATIBILITY IDEOGRAPH-2F818", aliases: &[] },
        Codepoint { codepoint: 0x2F819, name: "CJK COMPATIBILITY IDEOGRAPH-2F819", aliases: &[] },
        Codepoint { codepoint: 0x2F81A, name: "CJK COMPATIBILITY IDEOGRAPH-2F81A", aliases: &[] },
        Codepoint { codepoint: 0x2F81B, name: "CJK COMPATIBILITY IDEOGRAPH-2F81B", aliases: &[] },
        Codepoint { codepoint: 0x2F81C, name: "CJK COMPATIBILITY IDEOGRAPH-2F81C", aliases: &[] },
        Codepoint { codepoint: 0x2F81D, name: "CJK COMPATIBILITY IDEOGRAPH-2F81D", aliases: &[] },
        Codepoint { codepoint: 0x2F81E, name: "CJK COMPATIBILITY IDEOGRAPH-2F81E", aliases: &[] },
        Codepoint { codepoint: 0x2F81F, name: "CJK COMPATIBILITY IDEOGRAPH-2F81F", aliases: &[] },
        Codepoint { codepoint: 0x2F820, name: "CJK COMPATIBILITY IDEOGRAPH-2F820", aliases: &[] },
        Codepoint { codepoint: 0x2F821, name: "CJK COMPATIBILITY IDEOGRAPH-2F821", aliases: &[] },
        Codepoint { codepoint: 0x2F822, name: "CJK COMPATIBILITY IDEOGRAPH-2F822", aliases: &[] },
        Codepoint { codepoint: 0x2F823, name: "CJK COMPATIBILITY IDEOGRAPH-2F823", aliases: &[] },
        Codepoint { codepoint: 0x2F824, name: "CJK COMPATIBILITY IDEOGRAPH-2F824", aliases: &[] },
        Codepoint { codepoint: 0x2F825, name: "CJK COMPATIBILITY IDEOGRAPH-2F825", aliases: &[] },
        Codepoint { codepoint: 0x2F826, name: "CJK COMPATIBILITY IDEOGRAPH-2F826", aliases: &[] },
        Codepoint { codepoint: 0x2F827, name: "CJK COMPATIBILITY IDEOGRAPH-2F827", aliases: &[] },
        Codepoint { codepoint: 0x2F828, name: "CJK COMPATIBILITY IDEOGRAPH-2F828", aliases: &[] },
        Codepoint { codepoint: 0x2F829, name: "CJK COMPATIBILITY IDEOGRAPH-2F829", aliases: &[] },
        Codepoint { codepoint: 0x2F82A, name: "CJK COMPATIBILITY IDEOGRAPH-2F82A", aliases: &[] },
        Codepoint { codepoint: 0x2F82B, name: "CJK COMPATIBILITY IDEOGRAPH-2F82B", aliases: &[] },
        Codepoint { codepoint: 0x2F82C, name: "CJK COMPATIBILITY IDEOGRAPH-2F82C", aliases: &[] },
        Codepoint { codepoint: 0x2F82D, name: "CJK COMPATIBILITY IDEOGRAPH-2F82D", aliases: &[] },
        Codepoint { codepoint: 0x2F82E, name: "CJK COMPATIBILITY IDEOGRAPH-2F82E", aliases: &[] },
        Codepoint { codepoint: 0x2F82F, name: "CJK COMPATIBILITY IDEOGRAPH-2F82F", aliases: &[] },
        Codepoint { codepoint: 0x2F830, name: "CJK COMPATIBILITY IDEOGRAPH-2F830", aliases: &[] },
        Codepoint { codepoint: 0x2F831, name: "CJK COMPATIBILITY IDEOGRAPH-2F831", aliases: &[] },
        Codepoint { codepoint: 0x2F832, name: "CJK COMPATIBILITY IDEOGRAPH-2F832", aliases: &[] },
        Codepoint { codepoint: 0x2F833, name: "CJK COMPATIBILITY IDEOGRAPH-2F833", aliases: &[] },
        Codepoint { codepoint: 0x2F834, name: "CJK COMPATIBILITY IDEOGRAPH-2F834", aliases: &[] },
        Codepoint { codepoint: 0x2F835, name: "CJK COMPATIBILITY IDEOGRAPH-2F835", aliases: &[] },
        Codepoint { codepoint: 0x2F836, name: "CJK COMPATIBILITY IDEOGRAPH-2F836", aliases: &[] },
        Codepoint { codepoint: 0x2F837, name: "CJK COMPATIBILITY IDEOGRAPH-2F837", aliases: &[] },
        Codepoint { codepoint: 0x2F838, name: "CJK COMPATIBILITY IDEOGRAPH-2F838", aliases: &[] },
        Codepoint { codepoint: 0x2F839, name: "CJK COMPATIBILITY IDEOGRAPH-2F839", aliases: &[] },
        Codepoint { codepoint: 0x2F83A, name: "CJK COMPATIBILITY IDEOGRAPH-2F83A", aliases: &[] },
    ]
}

fn all_codepoints_844() -> (v: Vec<Codepoint>)
    ensures
        v@ == codepoint_table_844(),
{
    let v = vec![
        Codepoint { codepoint: 0x2F813, name: "CJK COMPATIBILITY IDEOGRAPH-2F813", aliases: &[] },
        Codepoint { codepoint: 0x2F814, name: "CJK COMPATIBILITY IDEOGRAPH-2F814", aliases: &[] },
        Codepoint { codepoint: 0x2F815, name: "CJK COMPATIBILITY IDEOGRAPH-2F815", aliases: &[] },
        Codepoint { codepoint: 0x2F816, name: "CJK COMPATIBILITY IDEOGRAPH-2F816", aliases: &[] },
        Codepoint { codepoint: 0x2F817, name: "CJK COMPATIBILITY IDEOGRAPH-2F817", aliases: &[] },
        Codepoint { codepoint: 0x2F818, name: "CJK COMPATIBILITY IDEOGRAPH-2F818", aliases: &[] },
        Codepoint { codepoint: 0x2F819, name: "CJK COMPATIBILITY IDEOGRAPH-2F819", aliases: &[] },
        Codepoint { codepoint: 0x2F81A, name: "CJK COMPATIBILITY IDEOGRAPH-2F81A", aliases: &[] },
        Codepoint { codepoint: 0x2F81B, name: "CJK COMPATIBILITY IDEOGRAPH-2F81B", aliases: &[] },
        Codepoint { codepoint: 0x2F81C, name: "CJK COMPATIBILITY IDEOGRAPH-2F81C", aliases: &[] },
        Codepoint { codepoint: 0x2F81D, name: "CJK COMPATIBILITY IDEOGRAPH-2F81D", aliases: &[] },
        Codepoint { codepoint: 0x2F81E, name: "CJK COMPATIBILITY IDEOGRAPH-2F81E", aliases: &[] },
        Codepoint { codepoint: 0x2F81F, name: "CJK COMPATIBILITY IDEOGRAPH-2F81F", aliases: &[] },
        Codepoint { codepoint: 0x2F820, name: "CJK COMPATIBILITY IDEOGRAPH-2F820", aliases: &[] },
        Codepoint { codepoint: 0x2F821, name: "CJK COMPATIBILITY IDEOGRAPH-2F821", aliases: &[] },
        Codepoint { codepoint: 0x2F822, name: "CJK COMPATIBILITY IDEOGRAPH-2F822", aliases: &[] },
        Codepoint { codepoint: 0x2F823, name: "CJK COMPATIBILITY IDEOGRAPH-2F823", aliases: &[] },
        Codepoint { codepoint: 0x2F824, name: "CJK COMPATIBILITY IDEOGRAPH-2F824", aliases: &[] },
        Codepoint { codepoint: 0x2F825, name: "CJK COMPATIBILITY IDEOGRAPH-2F825", aliases: &[] },
        Codepoint { codepoint: 0x2F826, name: "CJK COMPATIBILITY IDEOGRAPH-2F826", aliases: &[] },
        Codepoint { codepoint: 0x2F827, name: "CJK COMPATIBILITY IDEOGRAPH-2F827", aliases: &[] },
        Codepoint { codepoint: 0x2F828, name: "CJK COMPATIBILITY IDEOGRAPH-2F828", aliases: &[] },
        Codepoint { codepoint: 0x2F829, name: "CJK COMPATIBILITY IDEOGRAPH-2F829", aliases: &[] },
        Codepoint { codepoint: 0x2F82A, name: "CJK COMPATIBILITY IDEOGRAPH-2F82A", aliases: &[] },
        Codepoint { codepoint: 0x2F82B, name: "CJK COMPATIBILITY IDEOGRAPH-2F82B", aliases: &[] },
        Codepoint { codepoint: 0x2F82C, name: "CJK COMPATIBILITY IDEOGRAPH-2F82C", aliases: &[] },
        Codepoint { codepoint: 0x2F82D, name: "CJK COMPATIBILITY IDEOGRAPH-2F82D", aliases: &[] },
        Codepoint { codepoint: 0x2F82E, name: "CJK COMPATIBILITY IDEOGRAPH-2F82E", aliases: &[] },
        Codepoint { codepoint: 0x2F82F, name: "CJK COMPATIBILITY IDEOGRAPH-2F82F", aliases: &[] },
        Codepoint { codepoint: 0x2F830, name: "CJK COMPATIBILITY IDEOGRAPH-2F830", aliases: &[] },
        Codepoint { codepoint: 0x2F831, name: "CJK COMPATIBILITY IDEOGRAPH-2F831", aliases: &[] },
        Codepoint { codepoint: 0x2F832, name: "CJK COMPATIBILITY IDEOGRAPH-2F832", aliases: &[] },
        Codepoint { codepoint: 0x2F833, name: "CJK COMPATIBILITY IDEOGRAPH-2F833", aliases: &[] },
        Codepoint { codepoint: 0x2F834, name: "CJK COMPATIBILITY IDEOGRAPH-2F834", aliases: &[] },
        Codepoint { codepoint: 0x2F835, name: "CJK COMPATIBILITY IDEOGRAPH-2F835", aliases: &[] },
        Codepoint { codepoint: 0x2F836, name: "CJK COMPATIBILITY IDEOGRAPH-2F836", aliases: &[] },
        Codepoint { codepoint: 0x2F837, name: "CJK COMPATIBILITY IDEOGRAPH-2F837", aliases: &[] },
        Codepoint { codepoint: 0x2F838, name: "CJK COMPATIBILITY IDEOGRAPH-2F838", aliases: &[] },
        Codepoint { codepoint: 0x2F839, name: "CJK COMPATIBILITY IDEOGRAPH-2F839", aliases: &[] },
        Codepoint { codepoint: 0x2F83A, name: "CJK COMPATIBILITY IDEOGRAPH-2F83A", aliases: &[] },
    ];
    assert(v@ =~= codepoint_table_844());
    v
}

pub open spec fn codepoint_table_845() -> Seq<Codepoint> {
    seq![
        Codepoint { codepoint: 0x2F83B, name: "CJK COMPATIBILITY IDEOGRAPH-2F83B", aliases: &[] },
        Codepoint { codepoint: 0x2F83C, name: "CJK COMPATIBILITY IDEOGRAPH-2F83C", aliases: &[] },
        Codepoint { codepoint: 0x2F83D, name: "CJK COMPATIBILITY IDEOGRAPH-2F83D", aliases: &[] },
        Codepoint { codepoint: 0x2F83E, name: "CJK COMPATIBILITY IDEOGRAPH-2F83E", aliases: &[] },
        Codepoint { codepoint: 0x2F83F, name: "CJK COMPATIBILITY IDEOGRAPH-2F83F", aliases: &[] },
        Codepoint { codepoint: 0x2F840, name: "CJK COMPATIBILITY IDEOGRAPH-2F840", aliases: &[] },
        Codepoint { codepoint: 0x2F841, name: "CJK COMPATIBILITY IDEOGRAPH-2F841", aliases: &[] },
        Codepoint { codepoint: 0x2F842, name: "CJK COMPATIBILITY IDEOGRAPH-2F842", aliases: &[] },
        Codepoint { codepoint: 0x2F843, name: "CJK COMPATIBILITY IDEOGRAPH-2F843", aliases: &[] },
        Codepoint { codepoint: 0x2F844, name: "CJK COMPATIBILITY IDEOGRAPH-2F844", aliases: &[] },
        Codepoint { codepoint: 0x2F845, name: "CJK COMPATIBILITY IDEOGRAPH-2F845", aliases: &[] },
        Codepoint { codepoint: 0x2F846, name: "CJK COMPATIBILITY IDEOGRAPH-2F846", aliases: &[] },
        Codepoint { codepoint: 0x2F847, name: "CJK COMPATIBILITY IDEOGRAPH-2F847", aliases: &[] },
        Codepoint { codepoint: 0x2F848, name: "CJK COMPATIBILITY IDEOGRAPH-2F848", aliases: &[] },
        Codepoint { codepoint: 0x2F849, name: "CJK COMPATIBILITY IDEOGRAPH-2F849", aliases: &[] },
        Codepoint { codepoint: 0x2F84A, name: "CJK COMPATIBILITY IDEOGRAPH-2F84A", aliases: &[] },
        Codepoint { codepoint: 0x2F84B, name: "CJK COMPATIBILITY IDEOGRAPH-2F84B", aliases: &[] },
        Codepoint { codepoint: 0x2F84C, name: "CJK COMPATIBILITY IDEOGRAPH-2F84C", aliases: &[] },
        Codepoint { codepoint: 0x2F84D, name: "CJK COMPATIBILITY IDEOGRAPH-2F84D", aliases: &[] },
        Codepoint { codepoint: 0x2F84E, name: "CJK COMPATIBILITY IDEOGRAPH-2F84E", aliases: &[] },
        Codepoint { codepoint: 0x2F84F, name: "CJK COMPATIBILITY IDEOGRAPH-2F84F", aliases: &[] },
        Codepoint { codepoint: 0x2F850, name: "CJK COMPATIBILITY IDEOGRAPH-2F850", aliases: &[] },
        Codepoint { codepoint: 0x2F851, name: "CJK COMPATIBILITY IDEOGRAPH-2F851", aliases: &[] },
        Codepoint { codepoint: 0x2F852, name: "CJK COMPATIBILITY IDEOGRAPH-2F852", aliases: &[] },
        Codepoint { codepoint: 0x2F853, name: "CJK COMPATIBILITY IDEOGRAPH-2F853", aliases: &[] },
        Codepoint { codepoint: 0x2F854, name: "CJK COMPATIBILITY IDEOGRAPH-2F854", aliases: &[] },
        Codepoint { codepoint: 0x2F855, name: "CJK COMPATIBILITY IDEOGRAPH-2F855", aliases: &[] },
        Codepoint { codepoint: 0x2F856, name: "CJK COMPATIBILITY IDEOGRAPH-2F856", aliases: &[] },
        Codepoint { codepoint: 0x2F857, name: "CJK COMPATIBILITY IDEOGRAPH-2F857", aliases: &[] },
        Codepoint { codepoint: 0x2F858, name: "CJK COMPATIBILITY IDEOGRAPH-2F858", aliases: &[] },
        Codepoint { codepoint: 0x2F859, name: "CJK COMPATIBILITY IDEOGRAPH-2F859", aliases: &[] },
        Codepoint { codepoint: 0x2F85A, name: "CJK COMPATIBILITY IDEOGRAPH-2F85A", aliases: &[] },
        Codepoint { codepoint: 0x2F85B, name: "CJK COMPATIBILITY IDEOGRAPH-2F85B", aliases: &[] },
        Codepoint { codepoint: 0x2F85C, name: "CJK COMPATIBILITY IDEOGRAPH-2F85C", aliases: &[] },
        Codepoint { codepoint: 0x2F85D, name: "CJK COMPATIBILITY IDEOGRAPH-2F85D", aliases: &[] },
        Codepoint { codepoint: 0x2F85E, name: "CJK COMPATIBILITY IDEOGRAPH-2F85E", aliases: &[] },
        Codepoint { codepoint: 0x2F85F, name: "CJK COMPATIBILITY IDEOGRAPH-2F85F", aliases: &[] },
        Codepoint { codepoint: 0x2F860, name: "CJK COMPATIBILITY IDEOGRAPH-2F860", aliases: &[] },
        Codepoint { codepoint: 0x2F861, name: "CJK COMPATIBILITY IDEOGRAPH-2F861", aliases: &[] },
        Codepoint { codepoint: 0x2F862, name: "CJK COMPATIBILITY IDEOGRAPH-2F862", aliases: &[] },
    ]
}

fn all_codepoints_845() -> (v: Vec<Codepoint>)
    ensures
        v@ == codepoint_table_845(),
{
    let v = vec![
        Codepoint { codepoint: 0x2F83B, name: "CJK COMPATIBILITY IDEOGRAPH-2F83B", aliases: &[] },
        Codepoint { codepoint: 0x2F83C, name: "CJK COMPATIBILITY IDEOGRAPH-2F83C", aliases: &[] },
        Codepoint { codepoint: 0x2F83D, name: "CJK COMPATIBILITY IDEOGRAPH-2F83D", aliases: &[] },
        Codepoint { codepoint: 0x2F83E, name: "CJK COMPATIBILITY IDEOGRAPH-2F83E", aliases: &[] },
        Codepoint { codepoint: 0x2F83F, name: "CJK COMPATIBILITY IDEOGRAPH-2F83F", aliases: &[] },
        Codepoint { codepoint: 0x2F840, name: "CJK COMPATIBILITY IDEOGRAPH-2F840", aliases: &[] },
        Codepoint { codepoint: 0x2F841, name: "CJK COMPATIBILITY IDEOGRAPH-2F841", aliases: &[] },
        Codepoint { codepoint: 0x2F842, name: "CJK COMPATIBILITY IDEOGRAPH-2F842", aliases: &[] },
        Codepoint { codepoint: 0x2F843, name: "CJK COMPATIBILITY IDEOGRAPH-2F843", aliases: &[] },
        Codepoint { codepoint: 0x2F844, name: "CJK COMPATIBILITY IDEOGRAPH-2F844", aliases: &[] },
        Codepoint { codepoint: 0x2F845, name: "CJK COMPATIBILITY IDEOGRAPH-2F845", aliases: &[] },
        Codepoint { codepoint: 0x2F846, name: "CJK COMPATIBILITY IDEOGRAPH-2F846", aliases: &[] },
        Codepoint { codepoint: 0x2F847, name: "CJK COMPATIBILITY IDEOGRAPH-2F847", aliases: &[] },
        Codepoint { codepoint: 0x2F848, name: "CJK COMPATIBILITY IDEOGRAPH-2F848", aliases: &[] },
        Codepoint { codepoint: 0x2F849, name: "CJK COMPATIBILITY IDEOGRAPH-2F849", aliases: &[] },
        Codepoint { codepoint: 0x2F84A, name: "CJK COMPATIBILITY IDEOGRAPH-2F84A", aliases: &[] },
        Codepoint { codepoint: 0x2F84B, name: "CJK COMPATIBILITY IDEOGRAPH-2F84B", aliases: &[] },
        Codepoint { codepoint: 0x2F84C, name: "CJK COMPATIBILITY IDEOGRAPH-2F84C", aliases: &[] },
        Codepoint { codepoint: 0x2F84D, name: "CJK COMPATIBILITY IDEOGRAPH-2F84D", aliases: &[] },
        Codepoint { codepoint: 0x2F84E, name: "CJK COMPATIBILITY IDEOGRAPH-2F84E", aliases: &[] },
        Codepoint { codepoint: 0x2F84F, name: "CJK COMPATIBILITY IDEOGRAPH-2F84F", aliases: &[] },
        Codepoint { codepoint: 0x2F850, name: "CJK COMPATIBILITY IDEOGRAPH-2F850", aliases: &[] },
        Codepoint { codepoint: 0x2F851, name: "CJK COMPATIBILITY IDEOGRAPH-2F851", aliases: &[] },
        Codepoint { codepoint: 0x2F852, name: "CJK COMPATIBILITY IDEOGRAPH-2F852", aliases: &[] },
        Codepoint { codepoint: 0x2F853, name: "CJK COMPATIBILITY IDEOGRAPH-2F853", aliases: &[] },
        Codepoint { codepoint: 0x2F854, name: "CJK COMPATIBILITY IDEOGRAPH-2F854", aliases: &[] },
        Codepoint { codepoint: 0x2F855, name: "CJK COMPATIBILITY IDEOGRAPH-2F855", aliases: &[] },
        Codepoint { codepoint: 0x2F856, name: "CJK COMPATIBILITY IDEOGRAPH-2F856", aliases: &[] },
        Codepoint { codepoint: 0x2F857, name: "CJK COMPATIBILITY IDEOGRAPH-2F857", aliases: &[] },
        Codepoint { codepoint: 0x2F858, name: "CJK COMPATIBILITY IDEOGRAPH-2F858", aliases: &[] },
        Codepoint { codepoint: 0x2F859, name: "CJK COMPATIBILITY IDEOGRAPH-2F859", aliases: &[] },
        Codepoint { codepoint: 0x2F85A, name: "CJK COMPATIBILITY IDEOGRAPH-2F85A", aliases: &[] },
        Codepoint { codepoint: 0x2F85B, name: "CJK COMPATIBILITY IDEOGRAPH-2F85B", aliases: &[] },
        Codepoint { codepoint: 0x2F85C, name: "CJK COMPATIBILITY IDEOGRAPH-2F85C", aliases: &[] },
        Codepoint { codepoint: 0x2F85D, name: "CJK COMPATIBILITY IDEOGRAPH-2F85D", aliases: &[] },
        Codepoint { codepoint: 0x2F85E, name: "CJK COMPATIBILITY IDEOGRAPH-2F85E", aliases: &[] },
        Codepoint { codepoint: 0x2F85F, name: "CJK COMPATIBILITY IDEOGRAPH-2F85F", aliases: &[] },
        Codepoint { codepoint: 0x2F860, name: "CJK COMPATIBILITY IDEOGRAPH-2F860", aliases: &[] },
        Codepoint { codepoint: 0x2F861, name: "CJK COMPATIBILITY IDEOGRAPH-2F861", aliases: &[] },
        Codepoint { codepoint: 0x2F862, name: "CJK COMPATIBILITY IDEOGRAPH-2F862", aliases: &[] },
    ];
    assert(v@ =~= codepoint_table_845());
    v
}

pub open spec fn codepoint_table_846() -> Seq<Codepoint> {
    seq![
        Codepoint { codepoint: 0x2F863, name: "CJK COMPATIBILITY IDEOGRAPH-2F863", aliases: &[] },
        Codepoint { codepoint: 0x2F864, name: "CJK COMPATIBILITY IDEOGRAPH-2F864", aliases: &[] },
        Codepoint { codepoint: 0x2F865, name: "CJK COMPATIBILITY IDEOGRAPH-2F865", aliases: &[] },
        Codepoint { codepoint: 0x2F866, name: "CJK COMPATIBILITY IDEOGRAPH-2F866", aliases: &[] },
        Codepoint { codepoint: 0x2F867, name: "CJK COMPATIBILITY IDEOGRAPH-2F867", aliases: &[] },
        Codepoint { codepoint: 0x2F868, name: "CJK COMPATIBILITY IDEOGRAPH-2F868", aliases: &[] },
        Codepoint { codepoint: 0x2F869, name: "CJK COMPATIBILITY IDEOGRAPH-2F869", aliases: &[] },
        Codepoint { codepoint: 0x2F86A, name: "CJK COMPATIBILITY IDEOGRAPH-2F86A", aliases: &[] },
        Codepoint { codepoint: 0x2F86B, name: "CJK COMPATIBILITY IDEOGRAPH-2F86B", aliases: &[] },
        Codepoint { codepoint: 0x2F86C, name: "CJK COMPATIBILITY IDEOGRAPH-2F86C", aliases: &[] },
        Codepoint { codepoint: 0x2F86D, name: "CJK COMPATIBILITY IDEOGRAPH-2F86D", aliases: &[] },
        Codepoint { codepoint: 0x2F86E, name: "CJK COMPATIBILITY IDEOGRAPH-2F86E", aliases: &[] },
        Codepoint { codepoint: 0x2F86F, name: "CJK COMPATIBILITY IDEOGRAPH-2F86F", aliases: &[] },
        Codepoint { codepoint: 0x2F870, name: "CJK COMPATIBILITY IDEOGRAPH-2F870", aliases: &[] },
        Codepoint { codepoint: 0x2F871, name: "CJK COMPATIBILITY IDEOGRAPH-2F871", aliases: &[] },
        Codepoint { codepoint: 0x2F872, name: "CJK COMPATIBILITY IDEOGRAPH-2F872", aliases: &[] },
        Codepoint { codepoint: 0x2F873, name: "CJK COMPATIBILITY IDEOGRAPH-2F873", aliases: &[] },
        Codepoint { codepoint: 0x2F874, name: "CJK COMPATIBILITY IDEOGRAPH-2F874", aliases: &[] },
        Codepoint { codepoint: 0x2F875, name: "CJK COMPATIBILITY IDEOGRAPH-2F875", aliases: &[] },
        Codepoint { codepoint: 0x2F876, name: "CJK COMPATIBILITY IDEOGRAPH-2F876", aliases: &[] },
        Codepoint { codepoint: 0x2F877, name: "CJK COMPATIBILITY IDEOGRAPH-2F877", aliases: &[] },
        Codepoint { codepoint: 0x2F878, name: "CJK COMPATIBILITY IDEOGRAPH-2F878", aliases: &[] },
        Codepoint { codepoint: 0x2F879, name: "CJK COMPATIBILITY IDEOGRAPH-2F879", aliases: &[] },
        Codepoint { codepoint: 0x2F87A, name: "CJK COMPATIBILITY IDEOGRAPH-2F87A", aliases: &[] },
        Codepoint { codepoint: 0x2F87B, name: "CJK COMPATIBILITY IDEOGRAPH-2F87B", aliases: &[] },
        Codepoint { codepoint: 0x2F87C, name: "CJK COMPATIBILITY IDEOGRAPH-2F87C", aliases: &[] },
        Codepoint { codepoint: 0x2F87D, name: "CJK COMPATIBILITY IDEOGRAPH-2F87D", aliases: &[] },
        Codepoint { codepoint: 0x2F87E, name: "CJK COMPATIBILITY IDEOGRAPH-2F87E", aliases: &[] },
        Codepoint { codepoint: 0x2F87F, name: "CJK COMPATIBILITY IDEOGRAPH-2F87F", aliases: &[] },
        Codepoint { codepoint: 0x2F880, name: "CJK COMPATIBILITY IDEOGRAPH-2F880", aliases: &[] },
        Codepoint { codepoint: 0x2F881, name: "CJK COMPATIBILITY IDEOGRAPH-2F881", aliases: &[] },
        Codepoint { codepoint: 0x2F882, name: "CJK COMPATIBILITY IDEOGRAPH-2F882", aliases: &[] },
        Codepoint { codepoint: 0x2F883, name: "CJK COMPATIBILITY IDEOGRAPH-2F883", aliases: &[] },
        Codepoint { codepoint: 0x2F884, name: "CJK COMPATIBILITY IDEOGRAPH-2F884", aliases: &[] },
        Codepoint { codepoint: 0x2F885, name: "CJK COMPATIBILITY IDEOGRAPH-2F885", aliases: &[] },
        Codepoint { codepoint: 0x2F886, name: "CJK COMPATIBILITY IDEOGRAPH-2F886", aliases: &[] },
        Codepoint { codepoint: 0x2F887, name: "CJK COMPATIBILITY IDEOGRAPH-2F887", aliases: &[] },
        Codepoint { codepoint: 0x2F888, name: "CJK COMPATIBILITY IDEOGRAPH-2F888", aliases: &[] },
        Codepoint { codepoint: 0x2F889, name: "CJK COMPATIBILITY IDEOGRAPH-2F889", aliases: &[] },
        Codepoint { codepoint: 0x2F88A, name: "CJK COMPATIBILITY IDEOGRAPH-2F88A", aliases: &[] },
    ]
}

fn all_codepoints_846() -> (v: Vec<Codepoint>)
    ensures
        v@ == codepoint_table_846(),
{
    let v = vec![
        Codepoint { codepoint: 0x2F863, name: "CJK COMPATIBILITY IDEOGRAPH-2F863", aliases: &[] },
        Codepoint { codepoint: 0x2F864, name: "CJK COMPATIBILITY IDEOGRAPH-2F864", aliases: &[] },
        Codepoint { codepoint: 0x2F865, name: "CJK COMPATIBILITY IDEOGRAPH-2F865", aliases: &[] },
        Codepoint { codepoint: 0x2F866, name: "CJK COMPATIBILITY IDEOGRAPH-2F866", aliases: &[] },
        Codepoint { codepoint: 0x2F867, name: "CJK COMPATIBILITY IDEOGRAPH-2F867", aliases: &[] },
        Codepoint { codepoint: 0x2F868, name: "CJK COMPATIBILITY IDEOGRAPH-2F868", aliases: &[] },
        Codepoint { codepoint: 0x2F869, name: "CJK COMPATIBILITY IDEOGRAPH-2F869", aliases: &[] },
        Codepoint { codepoint: 0x2F86A, name: "CJK COMPATIBILITY IDEOGRAPH-2F86A", aliases: &[] },
        Codepoint { codepoint: 0x2F86B, name: "CJK COMPATIBILITY IDEOGRAPH-2F86B", aliases: &[] },
        Codepoint { codepoint: 0x2F86C, name: "CJK COMPATIBILITY IDEOGRAPH-2F86C", aliases: &[] },
        Codepoint { codepoint: 0x2F86D, name: "CJK COMPATIBILITY IDEOGRAPH-2F86D", aliases: &[] },
        Codepoint { codepoint: 0x2F86E, name: "CJK COMPATIBILITY IDEOGRAPH-2F86E", aliases: &[] },
        Codepoint { codepoint: 0x2F86F, name: "CJK COMPATIBILITY IDEOGRAPH-2F86F", aliases: &[] },
        Codepoint { codepoint: 0x2F870, name: "CJK COMPATIBILITY IDEOGRAPH-2F870", aliases: &[] },
        Codepoint { codepoint: 0x2F871, name: "CJK COMPATIBILITY IDEOGRAPH-2F871", aliases: &[] },
        Codepoint { codepoint: 0x2F872, name: "CJK COMPATIBILITY IDEOGRAPH-2F872", aliases: &[] },
        Codepoint { codepoint: 0x2F873, name: "CJK COMPATIBILITY IDEOGRAPH-2F873", aliases: &[] },
        Codepoint { codepoint: 0x2F874, name: "CJK COMPATIBILITY IDEOGRAPH-2F874", aliases: &[] },
        Codepoint { codepoint: 0x2F875, name: "CJK COMPATIBILITY IDEOGRAPH-2F875", aliases: &[] },
        Codepoint { codepoint: 0x2F876, name: "CJK COMPATIBILITY IDEOGRAPH-2F876", aliases: &[] },
        Codepoint { codepoint: 0x2F877, name: "CJK COMPATIBILITY IDEOGRAPH-2F877", aliases: &[] },
        Codepoint { codepoint: 0x2F878, name: "CJK COMPATIBILITY IDEOGRAPH-2F878", aliases: &[] },
        Codepoint { codepoint: 0x2F879, name: "CJK COMPATIBILITY IDEOGRAPH-2F879", aliases: &[] },
        Codepoint { codepoint: 0x2F87A, name: "CJK COMPATIBILITY IDEOGRAPH-2F87A", aliases: &[] },
        Codepoint { codepoint: 0x2F87B, name: "CJK COMPATIBILITY IDEOGRAPH-2F87B", aliases: &[] },
        Codepoint { codepoint: 0x2F87C, name: "CJK COMPATIBILITY IDEOGRAPH-2F87C", aliases: &[] },
        Codepoint { codepoint: 0x2F87D, name: "CJK COMPATIBILITY IDEOGRAPH-2F87D", aliases: &[] },
        Codepoint { codepoint: 0x2F87E, name: "CJK COMPATIBILITY IDEOGRAPH-2F87E", aliases: &[] },
        Codepoint { codepoint: 0x2F87F, name: "CJK COMPATIBILITY IDEOGRAPH-2F87F", aliases: &[] },
        Codepoint { codepoint: 0x2F880, name: "CJK COMPATIBILITY IDEOGRAPH-2F880", aliases: &[] },
        Codepoint { codepoint: 0x2F881, name: "CJK COMPATIBILITY IDEOGRAPH-2F881", aliases: &[] },
        Codepoint { codepoint: 0x2F882, name: "CJK COMPATIBILITY IDEOGRAPH-2F882", aliases: &[] },
        Codepoint { codepoint: 0x2F883, name: "CJK COMPATIBILITY IDEOGRAPH-2F883", aliases: &[] },
        Codepoint { codepoint: 0x2F884, name: "CJK COMPATIBILITY IDEOGRAPH-2F884", aliases: &[] },
        Codepoint { codepoint: 0x2F885, name: "CJK COMPATIBILITY IDEOGRAPH-2F885", aliases: &[] },
        Codepoint { codepoint: 0x2F886, name: "CJK COMPATIBILITY IDEOGRAPH-2F886", aliases: &[] },
        Codepoint { codepoint: 0x2F887, name: "CJK COMPATIBILITY IDEOGRAPH-2F887", aliases: &[] },
        Codepoint { codepoint: 0x2F888, name: "CJK COMPATIBILITY IDEOGRAPH-2F888", aliases: &[] },
        Codepoint { codepoint: 0x2F889, name: "CJK COMPATIBILITY IDEOGRAPH-2F889", aliases: &[] },
        Codepoint { codepoint: 0x2F88A, name: "CJK COMPATIBILITY IDEOGRAPH-2F88A", aliases: &[] },
    ];
    assert(v@ =~= codepoint_table_846());
    v
}

pub open spec fn codepoint_table_847() -> Seq<Codepoint> {
    seq![
        Codepoint { codepoint: 0x2F88B, name: "CJK COMPATIBILITY IDEOGRAPH-2F88B", aliases: &[] },
        Codepoint { codepoint: 0x2F88C, name: "CJK COMPATIBILITY IDEOGRAPH-2F88C", aliases: &[] },
        Codepoint { codepoint: 0x2F88D, name: "CJK COMPATIBILITY IDEOGRAPH-2F88D", aliases: &[] },
        Codepoint { codepoint: 0x2F88E, name: "CJK COMPATIBILITY IDEOGRAPH-2F88E", aliases: &[] },
        Codepoint { codepoint: 0x2F88F, name: "CJK COMPATIBILITY IDEOGRAPH-2F88F", aliases: &[] },
        Codepoint { codepoint: 0x2F890, name: "CJK COMPATIBILITY IDEOGRAPH-2F890", aliases: &[] },
        Codepoint { codepoint: 0x2F891, name: "CJK COMPATIBILITY IDEOGRAPH-2F891", aliases: &[] },
        Codepoint { codepoint: 0x2F892, name: "CJK COMPATIBILITY IDEOGRAPH-2F892", aliases: &[] },
        Codepoint { codepoint: 0x2F893, name: "CJK COMPATIBILITY IDEOGRAPH-2F893", aliases: &[] },
        Codepoint { codepoint: 0x2F894, name: "CJK COMPATIBILITY IDEOGRAPH-2F894", aliases: &[] },
        Codepoint { codepoint: 0x2F895, name: "CJK COMPATIBILITY IDEOGRAPH-2F895", aliases: &[] },
        Codepoint { codepoint: 0x2F896, name: "CJK COMPATIBILITY IDEOGRAPH-2F896", aliases: &[] },
        Codepoint { codepoint: 0x2F897, name: "CJK COMPATIBILITY IDEOGRAPH-2F897", aliases: &[] },
        Codepoint { codepoint: 0x2F898, name: "CJK COMPATIBILITY IDEOGRAPH-2F898", aliases: &[] },
        Codepoint { codepoint: 0x2F899, name: "CJK COMPATIBILITY IDEOGRAPH-2F899", aliases: &[] },
        Codepoint { codepoint: 0x2F89A, name: "CJK COMPATIBILITY IDEOGRAPH-2F89A", aliases: &[] },
        Codepoint { codepoint: 0x2F89B, name: "CJK COMPATIBILITY IDEOGRAPH-2F89B", aliases: &[] },
        Codepoint { codepoint: 0x2F89C, name: "CJK COMPATIBILITY IDEOGRAPH-2F89C", aliases: &[] },
        Codepoint { codepoint: 0x2F89D, name: "CJK COMPATIBILITY IDEOGRAPH-2F89D", aliases: &[] },
        Codepoint { codepoint: 0x2F89E, name: "CJK COMPATIBILITY IDEOGRAPH-2F89E", aliases: &[] },
        Codepoint { codepoint: 0x2F89F, name: "CJK COMPATIBILITY IDEOGRAPH-2F89F", aliases: &[] },
        Codepoint { codepoint: 0x2F8A0, name: "CJK COMPATIBILITY IDEOGRAPH-2F8A0", aliases: &[] },
        Codepoint { codepoint: 0x2F8A1, name: "CJK COMPATIBILITY IDEOGRAPH-2F8A1", aliases: &[] },
        Codepoint { codepoint: 0x2F8A2, name: "CJK COMPATIBILITY IDEOGRAPH-2F8A2", aliases: &[] },
        Codepoint { codepoint: 0x2F8A3, name: "CJK COMPATIBILITY IDEOGRAPH-2F8A3", aliases: &[] },
        Codepoint { codepoint: 0x2F8A4, name: "CJK COMPATIBILITY IDEOGRAPH-2F8A4", aliases: &[] },
        Codepoint { codepoint: 0x2F8A5, name: "CJK COMPATIBILITY IDEOGRAPH-2F8A5", aliases: &[] },
        Codepoint { codepoint: 0x2F8A6, name: "CJK COMPATIBILITY IDEOGRAPH-2F8A6", aliases: &[] },
        Codepoint { codepoint: 0x2F8A7, name: "CJK COMPATIBILITY IDEOGRAPH-2F8A7", aliases: &[] },
        Codepoint { codepoint: 0x2F8A8, name: "CJK COMPATIBILITY IDEOGRAPH-2F8A8", aliases: &[] },
        Codepoint { codepoint: 0x2F8A9, name: "CJK COMPATIBILITY IDEOGRAPH-2F8A9", aliases: &[] },
        Codepoint { codepoint: 0x2F8AA, name: "CJK COMPATIBILITY IDEOGRAPH-2F8AA", aliases: &[] },
        Codepoint { codepoint: 0x2F8AB, name: "CJK COMPATIBILITY IDEOGRAPH-2F8AB", aliases: &[] },
        Codepoint { codepoint: 0x2F8AC, name: "CJK COMPATIBILITY IDEOGRAPH-2F8AC", aliases: &[] },
        Codepoint { codepoint: 0x2F8AD, name: "CJK COMPATIBILITY IDEOGRAPH-2F8AD", aliases: &[] },
        Codepoint { codepoint: 0x2F8AE, name: "CJK COMPATIBILITY IDEOGRAPH-2F8AE", aliases: &[] },
        Codepoint { codepoint: 0x2F8AF, name: "CJK COMPATIBILITY IDEOGRAPH-2F8AF", aliases: &[] },
        Codepoint { codepoint: 0x2F8B0, name: "CJK COMPATIBILITY IDEOGRAPH-2F8B0", aliases: &[] },
        Codepoint { codepoint: 0x2F8B1, name: "CJK COMPATIBILITY IDEOGRAPH-2F8B1", aliases: &[] },
        Codepoint { codepoint: 0x2F8B2, name: "CJK COMPATIBILITY IDEOGRAPH-2F8B2", aliases: &[] },
    ]
}

fn all_codepoints_847() -> (v: Vec<Codepoint>)
    ensures
        v@ == codepoint_table_847(),
{
    let v = vec![
        Codepoint { codepoint: 0x2F88B, name: "CJK COMPATIBILITY IDEOGRAPH-2F88B", aliases: &[] },
        Codepoint { codepoint: 0x2F88C, name: "CJK COMPATIBILITY IDEOGRAPH-2F88C", aliases: &[] },
        Codepoint { codepoint: 0x2F88D, name: "CJK COMPATIBILITY IDEOGRAPH-2F88D", aliases: &[] },
        Codepoint { codepoint: 0x2F88E, name: "CJK COMPATIBILITY IDEOGRAPH-2F88E", aliases: &[] },
        Codepoint { codepoint: 0x2F88F, name: "CJK COMPATIBILITY IDEOGRAPH-2F88F", aliases: &[] },
        Codepoint { codepoint: 0x2F890, name: "CJK COMPATIBILITY IDEOGRAPH-2F890", aliases: &[] },
        Codepoint { codepoint: 0x2F891, name: "CJK COMPATIBILITY IDEOGRAPH-2F891", aliases: &[] },
        Codepoint { codepoint: 0x2F892, name: "CJK COMPATIBILITY IDEOGRAPH-2F892", aliases: &[] },
        Codepoint { codepoint: 0x2F893, name: "CJK COMPATIBILITY IDEOGRAPH-2F893", aliases: &[] },
        Codepoint { codepoint: 0x2F894, name: "CJK COMPATIBILITY IDEOGRAPH-2F894", aliases: &[] },
        Codepoint { codepoint: 0x2F895, name: "CJK COMPATIBILITY IDEOGRAPH-2F895", aliases: &[] },
        Codepoint { codepoint: 0x2F896, name: "CJK COMPATIBILITY IDEOGRAPH-2F896", aliases: &[] },
        Codepoint { codepoint: 0x2F897, name: "CJK COMPATIBILITY IDEOGRAPH-2F897", aliases: &[] },
        Codepoint { codepoint: 0x2F898, name: "CJK COMPATIBILITY IDEOGRAPH-2F898", aliases: &[] },
        Codepoint { codepoint: 0x2F899, name: "CJK COMPATIBILITY IDEOGRAPH-2F899", aliases: &[] },
        Codepoint { codepoint: 0x2F89A, name: "CJK COMPATIBILITY IDEOGRAPH-2F89A", aliases: &[] },
        Codepoint { codepoint: 0x2F89B, name: "CJK COMPATIBILITY IDEOGRAPH-2F89B", aliases: &[] },
        Codepoint { codepoint: 0x2F89C, name: "CJK COMPATIBILITY IDEOGRAPH-2F89C", aliases: &[] },
        Codepoint { codepoint: 0x2F89D, name: "CJK COMPATIBILITY IDEOGRAPH-2F89D", aliases: &[] },
        Codepoint { codepoint: 0x2F89E, name: "CJK COMPATIBILITY IDEOGRAPH-2F89E", aliases: &[] },
        Codepoint { codepoint: 0x2F89F, name: "CJK COMPATIBILITY IDEOGRAPH-2F89F", aliases: &[] },
        Codepoint { codepoint: 0x2F8A0, name: "CJK COMPATIBILITY IDEOGRAPH-2F8A0", aliases: &[] },
        Codepoint { codepoint: 0x2F8A1, name: "CJK COMPATIBILITY IDEOGRAPH-2F8A1", aliases: &[] },
        Codepoint { codepoint: 0x2F8A2, name: "CJK COMPATIBILITY IDEOGRAPH-2F8A2", aliases: &[] },
        Codepoint { codepoint: 0x2F8A3, name: "CJK COMPATIBILITY IDEOGRAPH-2F8A3", aliases: &[] },
        Codepoint { codepoint: 0x2F8A4, name: "CJK COMPATIBILITY IDEOGRAPH-2F8A4", aliases: &[] },
        Codepoint { codepoint: 0x2F8A5, name: "CJK COMPATIBILITY IDEOGRAPH-2F8A5", aliases: &[] },
        Codepoint { codepoint: 0x2F8A6, name: "CJK COMPATIBILITY IDEOGRAPH-2F8A6", aliases: &[] },
        Codepoint { codepoint: 0x2F8A7, name: "CJK COMPATIBILITY IDEOGRAPH-2F8A7", aliases: &[] },
        Codepoint { codepoint: 0x2F8A8, name: "CJK COMPATIBILITY IDEOGRAPH-2F8A8", aliases: &[] },
        Codepoint { codepoint: 0x2F8A9, name: "CJK COMPATIBILITY IDEOGRAPH-2F8A9", aliases: &[] },
        Codepoint { codepoint: 0x2F8AA, name: "CJK COMPATIBILITY IDEOGRAPH-2F8AA", aliases: &[] },
        Codepoint { codepoint: 0x2F8AB, name: "CJK COMPATIBILITY IDEOGRAPH-2F8AB", aliases: &[] },
        Codepoint { codepoint: 0x2F8AC, name: "CJK COMPATIBILITY IDEOGRAPH-2F8AC", aliases: &[] },
        Codepoint { codepoint: 0x2F8AD, name: "CJK COMPATIBILITY IDEOGRAPH-2F8AD", aliases: &[] },
        Codepoint { codepoint: 0x2F8AE, name: "CJK COMPATIBILITY IDEOGRAPH-2F8AE", aliases: &[] },
        Codepoint { codepoint: 0x2F8AF, name: "CJK COMPATIBILITY IDEOGRAPH-2F8AF", aliases: &[] },
        Codepoint { codepoint: 0x2F8B0, name: "CJK COMPATIBILITY IDEOGRAPH-2F8B0", aliases: &[] },
        Codepoint { codepoint: 0x2F8B1, name: "CJK COMPATIBILITY IDEOGRAPH-2F8B1", aliases: &[] },
        Codepoint { codepoint: 0x2F8B2, name: "CJK COMPATIBILITY IDEOGRAPH-2F8B2", aliases: &[] },
    ];
    assert(v@ =~= codepoint_table_847());
    v
}

pub open spec fn codepoint_table_848() -> Seq<Codepoint> {
    seq![
        Codepoint { codepoint: 0x2F8B3, name: "CJK COMPATIBILITY IDEOGRAPH-2F8B3", aliases: &[] },
        Codepoint { codepoint: 0x2F8B4, name: "CJK COMPATIBILITY IDEOGRAPH-2F8B4", aliases: &[] },
        Codepoint { codepoint: 0x2F8B5, name: "CJK COMPATIBILITY IDEOGRAPH-2F8B5", aliases: &[] },
        Codepoint { codepoint: 0x2F8B6, name: "CJK COMPATIBILITY IDEOGRAPH-2F8B6", aliases: &[] },
        Codepoint { codepoint: 0x2F8B7, name: "CJK COMPATIBILITY IDEOGRAPH-2F8B7", aliases: &[] },
        Codepoint { codepoint: 0x2F8B8, name: "CJK COMPATIBILITY IDEOGRAPH-2F8B8", aliases: &[] },
        Codepoint { codepoint: 0x2F8B9, name: "CJK COMPATIBILITY IDEOGRAPH-2F8B9", aliases: &[] },
        Codepoint { codepoint: 0x2F8BA, name: "CJK COMPATIBILITY IDEOGRAPH-2F8BA", aliases: &[] },
        Codepoint { codepoint: 0x2F8BB, name: "CJK COMPATIBILITY IDEOGRAPH-2F8BB", aliases: &[] },
        Codepoint { codepoint: 0x2F8BC, name: "CJK COMPATIBILITY IDEOGRAPH-2F8BC", aliases: &[] },
        Codepoint { codepoint: 0x2F8BD, name: "CJK COMPATIBILITY IDEOGRAPH-2F8BD", aliases: &[] },
        Codepoint { codepoint: 0x2F8BE, name: "CJK COMPATIBILITY IDEOGRAPH-2F8BE", aliases: &[] },
        Codepoint { codepoint: 0x2F8BF, name: "CJK COMPATIBILITY IDEOGRAPH-2F8BF", aliases: &[] },
        Codepoint { codepoint: 0x2F8C0, name: "CJK COMPATIBILITY IDEOGRAPH-2F8C0", aliases: &[] },
        Codepoint { codepoint: 0x2F8C1, name: "CJK COMPATIBILITY IDEOGRAPH-2F8C1", aliases: &[] },
        Codepoint { codepoint: 0x2F8C2, name: "CJK COMPATIBILITY IDEOGRAPH-2F8C2", aliases: &[] },
        Codepoint { codepoint: 0x2F8C3, name: "CJK COMPATIBILITY IDEOGRAPH-2F8C3", aliases: &[] },
        Codepoint { codepoint: 0x2F8C4, name: "CJK COMPATIBILITY IDEOGRAPH-2F8C4", aliases: &[] },
        Codepoint { codepoint: 0x2F8C5, name: "CJK COMPATIBILITY IDEOGRAPH-2F8C5", aliases: &[] },
        Codepoint { codepoint: 0x2F8C6, name: "CJK COMPATIBILITY IDEOGRAPH-2F8C6", aliases: &[] },
        Codepoint { codepoint: 0x2F8C7, name: "CJK COMPATIBILITY IDEOGRAPH-2F8C7", aliases: &[] },
        Codepoint { codepoint: 0x2F8C8, name: "CJK COMPATIBILITY IDEOGRAPH-2F8C8", aliases: &[] },
        Codepoint { codepoint: 0x2F8C9, name: "CJK COMPATIBILITY IDEOGRAPH-2F8C9", aliases: &[] },
        Codepoint { codepoint: 0x2F8CA, name: "CJK COMPATIBILITY IDEOGRAPH-2F8CA", aliases: &[] },
        Codepoint { codepoint: 0x2F8CB, name: "CJK COMPATIBILITY IDEOGRAPH-2F8CB", aliases: &[] },
        Codepoint { codepoint: 0x2F8CC, name: "CJK COMPATIBILITY IDEOGRAPH-2F8CC", aliases: &[] },
        Codepoint { codepoint: 0x2F8CD, name: "CJK COMPATIBILITY IDEOGRAPH-2F8CD", aliases: &[] },
        Codepoint { codepoint: 0x2F8CE, name: "CJK COMPATIBILITY IDEOGRAPH-2F8CE", aliases: &[] },
        Codepoint { codepoint: 0x2F8CF, name: "CJK COMPATIBILITY IDEOGRAPH-2F8CF", aliases: &[] },
        Codepoint { codepoint: 0x2F8D0, name: "CJK COMPATIBILITY IDEOGRAPH-2F8D0", aliases: &[] },
        Codepoint { codepoint: 0x2F8D1, name: "CJK COMPATIBILITY IDEOGRAPH-2F8D1", aliases: &[] },
        Codepoint { codepoint: 0x2F8D2, name: "CJK COMPATIBILITY IDEOGRAPH-2F8D2", aliases: &[] },
        Codepoint { codepoint: 0x2F8D3, name: "CJK COMPATIBILITY IDEOGRAPH-2F8D3", aliases: &[] },
        Codepoint { codepoint: 0x2F8D4, name: "CJK COMPATIBILITY IDEOGRAPH-2F8D4", aliases: &[] },
        Codepoint { codepoint: 0x2F8D5, name: "CJK COMPATIBILITY IDEOGRAPH-2F8D5", aliases: &[] },
        Codepoint { codepoint: 0x2F8D6, name: "CJK COMPATIBILITY IDEOGRAPH-2F8D6", aliases: &[] },
        Codepoint { codepoint: 0x2F8D7, name: "CJK COMPATIBILITY IDEOGRAPH-2F8D7", aliases: &[] },
        Codepoint { codepoint: 0x2F8D8, name: "CJK COMPATIBILITY IDEOGRAPH-2F8D8", aliases: &[] },
        Codepoint { codepoint: 0x2F8D9, name: "CJK COMPATIBILITY IDEOGRAPH-2F8D9", aliases: &[] },
        Codepoint { codepoint: 0x2F8DA, name: "CJK COMPATIBILITY IDEOGRAPH-2F8DA", aliases: &[] },
    ]
}

fn all_codepoints_848() -> (v: Vec<Codepoint>)
    ensures
        v@ == codepoint_table_848(),
{
    let v = vec![
        Codepoint { codepoint: 0x2F8B3, name: "CJK COMPATIBILITY IDEOGRAPH-2F8B3", aliases: &[] },
        Codepoint { codepoint: 0x2F8B4, name: "CJK COMPATIBILITY IDEOGRAPH-2F8B4", aliases: &[] },
        Codepoint { codepoint: 0x2F8B5, name: "CJK COMPATIBILITY IDEOGRAPH-2F8B5", aliases: &[] },
        Codepoint { codepoint: 0x2F8B6, name: "CJK COMPATIBILITY IDEOGRAPH-2F8B6", aliases: &[] },
        Codepoint { codepoint: 0x2F8B7, name: "CJK COMPATIBILITY IDEOGRAPH-2F8B7", aliases: &[] },
        Codepoint { codepoint: 0x2F8B8, name: "CJK COMPATIBILITY IDEOGRAPH-2F8B8", aliases: &[] },
        Codepoint { codepoint: 0x2F8B9, name: "CJK COMPATIBILITY IDEOGRAPH-2F8B9", aliases: &[] },
        Codepoint { codepoint: 0x2F8BA, name: "CJK COMPATIBILITY IDEOGRAPH-2F8BA", aliases: &[] },
        Codepoint { codepoint: 0x2F8BB, name: "CJK COMPATIBILITY IDEOGRAPH-2F8BB", aliases: &[] },
        Codepoint { codepoint: 0x2F8BC, name: "CJK COMPATIBILITY IDEOGRAPH-2F8BC", aliases: &[] },
        Codepoint { codepoint: 0x2F8BD, name: "CJK COMPATIBILITY IDEOGRAPH-2F8BD", aliases: &[] },
        Codepoint { codepoint: 0x2F8BE, name: "CJK COMPATIBILITY IDEOGRAPH-2F8BE", aliases: &[] },
        Codepoint { codepoint: 0x2F8BF, name: "CJK COMPATIBILITY IDEOGRAPH-2F8BF", aliases: &[] },
        Codepoint { codepoint: 0x2F8C0, name: "CJK COMPATIBILITY IDEOGRAPH-2F8C0", aliases: &[] },
        Codepoint { codepoint: 0x2F8C1, name: "CJK COMPATIBILITY IDEOGRAPH-2F8C1", aliases: &[] },
        Codepoint { codepoint: 0x2F8C2, name: "CJK COMPATIBILITY IDEOGRAPH-2F8C2", aliases: &[] },
        Codepoint { codepoint: 0x2F8C3, name: "CJK COMPATIBILITY IDEOGRAPH-2F8C3", aliases: &[] },
        Codepoint { codepoint: 0x2F8C4, name: "CJK COMPATIBILITY IDEOGRAPH-2F8C4", aliases: &[] },
        Codepoint { codepoint: 0x2F8C5, name: "CJK COMPATIBILITY IDEOGRAPH-2F8C5", aliases: &[] },
        Codepoint { codepoint: 0x2F8C6, name: "CJK COMPATIBILITY IDEOGRAPH-2F8C6", aliases: &[] },
        Codepoint { codepoint: 0x2F8C7, name: "CJK COMPATIBILITY IDEOGRAPH-2F8C7", aliases: &[] },
        Codepoint { codepoint: 0x2F8C8, name: "CJK COMPATIBILITY IDEOGRAPH-2F8C8", aliases: &[] },
        Codepoint { codepoint: 0x2F8C9, name: "CJK COMPATIBILITY IDEOGRAPH-2F8C9", aliases: &[] },
        Codepoint { codepoint: 0x2F8CA, name: "CJK COMPATIBILITY IDEOGRAPH-2F8CA", aliases: &[] },
        Codepoint { codepoint: 0x2F8CB, name: "CJK COMPATIBILITY IDEOGRAPH-2F8CB", aliases: &[] },
        Codepoint { codepoint: 0x2F8CC, name: "CJK COMPATIBILITY IDEOGRAPH-2F8CC", aliases: &[] },
        Codepoint { codepoint: 0x2F8CD, name: "CJK COMPATIBILITY IDEOGRAPH-2F8CD", aliases: &[] },
        Codepoint { codepoint: 0x2F8CE, name: "CJK COMPATIBILITY IDEOGRAPH-2F8CE", aliases: &[] },
        Codepoint { codepoint: 0x2F8CF, name: "CJK COMPATIBILITY IDEOGRAPH-2F8CF", aliases: &[] },
        Codepoint { codepoint: 0x2F8D0, name: "CJK COMPATIBILITY IDEOGRAPH-2F8D0", aliases: &[] },
        Codepoint { codepoint: 0x2F8D1, name: "CJK COMPATIBILITY IDEOGRAPH-2F8D1", aliases: &[] },
        Codepoint { codepoint: 0x2F8D2, name: "CJK COMPATIBILITY IDEOGRAPH-2F8D2", aliases: &[] },
        Codepoint { codepoint: 0x2F8D3, name: "CJK COMPATIBILITY IDEOGRAPH-2F8D3", aliases: &[] },
        Codepoint { codepoint: 0x2F8D4, name: "CJK COMPATIBILITY IDEOGRAPH-2F8D4", aliases: &[] },
        Codepoint { codepoint: 0x2F8D5, name: "CJK COMPATIBILITY IDEOGRAPH-2F8D5", aliases: &[] },
        Codepoint { codepoint: 0x2F8D6, name: "CJK COMPATIBILITY IDEOGRAPH-2F8D6", aliases: &[] },
        Codepoint { codepoint: 0x2F8D7, name: "CJK COMPATIBILITY IDEOGRAPH-2F8D7", aliases: &[] },
        Codepoint { codepoint: 0x2F8D8, name: "CJK COMPATIBILITY IDEOGRAPH-2F8D8", aliases: &[] },
        Codepoint { codepoint: 0x2F8D9, name: "CJK COMPATIBILITY IDEOGRAPH-2F8D9", aliases: &[] },
        Codepoint { codepoint: 0x2F8DA, name: "CJK COMPATIBILITY IDEOGRAPH-2F8DA", aliases: &[] },
    ];
    assert(v@ =~= codepoint_table_848());
    v
}

pub open spec fn codepoint_table_849() -> Seq<Codepoint> {
    seq![
        Codepoint { codepoint: 0x2F8DB, name: "CJK COMPATIBILITY IDEOGRAPH-2F8DB", aliases: &[] },
        Codepoint { codepoint: 0x2F8DC, name: "CJK COMPATIBILITY IDEOGRAPH-2F8DC", aliases: &[] },
        Codepoint { codepoint: 0x2F8DD, name: "CJK COMPATIBILITY IDEOGRAPH-2F8DD", aliases: &[] },
        Codepoint { codepoint: 0x2F8DE, name: "CJK COMPATIBILITY IDEOGRAPH-2F8DE", aliases: &[] },
        Codepoint { codepoint: 0x2F8DF, name: "CJK COMPATIBILITY IDEOGRAPH-2F8DF", aliases: &[] },
        Codepoint { codepoint: 0x2F8E0, name: "CJK COMPATIBILITY IDEOGRAPH-2F8E0", aliases: &[] },
        Codepoint { codepoint: 0x2F8E1, name: "CJK COMPATIBILITY IDEOGRAPH-2F8E1", aliases: &[] },
        Codepoint { codepoint: 0x2F8E2, name: "CJK COMPATIBILITY IDEOGRAPH-2F8E2", aliases: &[] },
        Codepoint { codepoint: 0x2F8E3, name: "CJK COMPATIBILITY IDEOGRAPH-2F8E3", aliases: &[] },
        Codepoint { codepoint: 0x2F8E4, name: "CJK COMPATIBILITY IDEOGRAPH-2F8E4", aliases: &[] },
        Codepoint { codepoint: 0x2F8E5, name: "CJK COMPATIBILITY IDEOGRAPH-2F8E5", aliases: &[] },
        Codepoint { codepoint: 0x2F8E6, name: "CJK COMPATIBILITY IDEOGRAPH-2F8E6", aliases: &[] },
        Codepoint { codepoint: 0x2F8E7, name: "CJK COMPATIBILITY IDEOGRAPH-2F8E7", aliases: &[] },
        Codepoint { codepoint: 0x2F8E8, name: "CJK COMPATIBILITY IDEOGRAPH-2F8E8", aliases: &[] },
        Codepoint { codepoint: 0x2F8E9, name: "CJK COMPATIBILITY IDEOGRAPH-2F8E9", aliases: &[] },
        Codepoint { codepoint: 0x2F8EA, name: "CJK COMPATIBILITY IDEOGRAPH-2F8EA", aliases: &[] },
        Codepoint { codepoint: 0x2F8EB, name: "CJK COMPATIBILITY IDEOGRAPH-2F8EB", aliases: &[] },
        Codepoint { codepoint: 0x2F8EC, name: "CJK COMPATIBILITY IDEOGRAPH-2F8EC", aliases: &[] },
        Codepoint { codepoint: 0x2F8ED, name: "CJK COMPATIBILITY IDEOGRAPH-2F8ED", aliases: &[] },
        Codepoint { codepoint: 0x2F8EE, name: "CJK COMPATIBILITY IDEOGRAPH-2F8EE", aliases: &[] },
        Codepoint { codepoint: 0x2F8EF, name: "CJK COMPATIBILITY IDEOGRAPH-2F8EF", aliases: &[] },
        Codepoint { codepoint: 0x2F8F0, name: "CJK COMPATIBILITY IDEOGRAPH-2F8F0", aliases: &[] },
        Codepoint { codepoint: 0x2F8F1, name: "CJK COMPATIBILITY IDEOGRAPH-2F8F1", aliases: &[] },
        Codepoint { codepoint: 0x2F8F2, name: "CJK COMPATIBILITY IDEOGRAPH-2F8F2", aliases: &[] },
        Codepoint { codepoint: 0x2F8F3, name: "CJK COMPATIBILITY IDEOGRAPH-2F8F3", aliases: &[] },
        Codepoint { codepoint: 0x2F8F4, name: "CJK COMPATIBILITY IDEOGRAPH-2F8F4", aliases: &[] },
        Codepoint { codepoint: 0x2F8F5, name: "CJK COMPATIBILITY IDEOGRAPH-2F8F5", aliases: &[] },
        Codepoint { codepoint: 0x2F8F6, name: "CJK COMPATIBILITY IDEOGRAPH-2F8F6", aliases: &[] },
        Codepoint { codepoint: 0x2F8F7, name: "CJK COMPATIBILITY IDEOGRAPH-2F8F7", aliases: &[] },
        Codepoint { codepoint: 0x2F8F8, name: "CJK COMPATIBILITY IDEOGRAPH-2F8F8", aliases: &[] },
        Codepoint { codepoint: 0x2F8F9, name: "CJK COMPATIBILITY IDEOGRAPH-2F8F9", aliases: &[] },
        Codepoint { codepoint: 0x2F8FA, name: "CJK COMPATIBILITY IDEOGRAPH-2F8FA", aliases: &[] },
        Codepoint { codepoint: 0x2F8FB, name: "CJK COMPATIBILITY IDEOGRAPH-2F8FB", aliases: &[] },
        Codepoint { codepoint: 0x2F8FC, name: "CJK COMPATIBILITY IDEOGRAPH-2F8FC", aliases: &[] },
        Codepoint { codepoint: 0x2F8FD, name: "CJK COMPATIBILITY IDEOGRAPH-2F8FD", aliases: &[] },
        Codepoint { codepoint: 0x2F8FE, name: "CJK COMPATIBILITY IDEOGRAPH-2F8FE", aliases: &[] },
        Codepoint { codepoint: 0x2F8FF, name: "CJK COMPATIBILITY IDEOGRAPH-2F8FF", aliases: &[] },
        Codepoint { codepoint: 0x2F900, name: "CJK COMPATIBILITY IDEOGRAPH-2F900", aliases: &[] },
        Codepoint { codepoint: 0x2F901, name: "CJK COMPATIBILITY IDEOGRAPH-2F901", aliases: &[] },
        Codepoint { codepoint: 0x2F902, name: "CJK COMPATIBILITY IDEOGRAPH-2F902", aliases: &[] },
    ]
}

fn all_codepoints_849() -> (v: Vec<Codepoint>)
    ensures
        v@ == codepoint_table_849(),
{
    let v = vec![
        Codepoint { codepoint: 0x2F8DB, name: "CJK COMPATIBILITY IDEOGRAPH-2F8DB", aliases: &[] },
        Codepoint { codepoint: 0x2F8DC, name: "CJK COMPATIBILITY IDEOGRAPH-2F8DC", aliases: &[] },
        Codepoint { codepoint: 0x2F8DD, name: "CJK COMPATIBILITY IDEOGRAPH-2F8DD", aliases: &[] },
        Codepoint { codepoint: 0x2F8DE, name: "CJK COMPATIBILITY IDEOGRAPH-2F8DE", aliases: &[] },
        Codepoint { codepoint: 0x2F8DF, name: "CJK COMPATIBILITY IDEOGRAPH-2F8DF", aliases: &[] },
        Codepoint { codepoint: 0x2F8E0, name: "CJK COMPATIBILITY IDEOGRAPH-2F8E0", aliases: &[] },
        Codepoint { codepoint: 0x2F8E1, name: "CJK COMPATIBILITY IDEOGRAPH-2F8E1", aliases: &[] },
        Codepoint { codepoint: 0x2F8E2, name: "CJK COMPATIBILITY IDEOGRAPH-2F8E2", aliases: &[] },
        Codepoint { codepoint: 0x2F8E3, name: "CJK COMPATIBILITY IDEOGRAPH-2F8E3", aliases: &[] },
        Codepoint { codepoint: 0x2F8E4, name: "CJK COMPATIBILITY IDEOGRAPH-2F8E4", aliases: &[] },
        Codepoint { codepoint: 0x2F8E5, name: "CJK COMPATIBILITY IDEOGRAPH-2F8E5", aliases: &[] },
        Codepoint { codepoint: 0x2F8E6, name: "CJK COMPATIBILITY IDEOGRAPH-2F8E6", aliases: &[] },
        Codepoint { codepoint: 0x2F8E7, name: "CJK COMPATIBILITY IDEOGRAPH-2F8E7", aliases: &[] },
        Codepoint { codepoint: 0x2F8E8, name: "CJK COMPATIBILITY IDEOGRAPH-2F8E8", aliases: &[] },
        Codepoint { codepoint: 0x2F8E9, name: "CJK COMPATIBILITY IDEOGRAPH-2F8E9", aliases: &[] },
        Codepoint { codepoint: 0x2F8EA, name: "CJK COMPATIBILITY IDEOGRAPH-2F8EA", aliases: &[] },
        Codepoint { codepoint: 0x2F8EB, name: "CJK COMPATIBILITY IDEOGRAPH-2F8EB", aliases: &[] },
        Codepoint { codepoint: 0x2F8EC, name: "CJK COMPATIBILITY IDEOGRAPH-2F8EC", aliases: &[] },
        Codepoint { codepoint: 0x2F8ED, name: "CJK COMPATIBILITY IDEOGRAPH-2F8ED", aliases: &[] },
        Codepoint { codepoint: 0x2F8EE, name: "CJK COMPATIBILITY IDEOGRAPH-2F8EE", aliases: &[] },
        Codepoint { codepoint: 0x2F8EF, name: "CJK COMPATIBILITY IDEOGRAPH-2F8EF", aliases: &[] },
        Codepoint { codepoint: 0x2F8F0, name: "CJK COMPATIBILITY IDEOGRAPH-2F8F0", aliases: &[] },
        Codepoint { codepoint: 0x2F8F1, name: "CJK COMPATIBILITY IDEOGRAPH-2F8F1", aliases: &[] },
        Codepoint { codepoint: 0x2F8F2, name: "CJK COMPATIBILITY IDEOGRAPH-2F8F2", aliases: &[] },
        Codepoint { codepoint: 0x2F8F3, name: "CJK COMPATIBILITY IDEOGRAPH-2F8F3", aliases: &[] },
        Codepoint { codepoint: 0x2F8F4, name: "CJK COMPATIBILITY IDEOGRAPH-2F8F4", aliases: &[] },
        Codepoint { codepoint: 0x2F8F5, name: "CJK COMPATIBILITY IDEOGRAPH-2F8F5", aliases: &[] },
        Codepoint { codepoint: 0x2F8F6, name: "CJK COMPATIBILITY IDEOGRAPH-2F8F6", aliases: &[] },
        Codepoint { codepoint: 0x2F8F7, name: "CJK COMPATIBILITY IDEOGRAPH-2F8F7", aliases: &[] },
        Codepoint { codepoint: 0x2F8F8, name: "CJK COMPATIBILITY IDEOGRAPH-2F8F8", aliases: &[] },
        Codepoint { codepoint: 0x2F8F9, name: "CJK COMPATIBILITY IDEOGRAPH-2F8F9", aliases: &[] },
        Codepoint { codepoint: 0x2F8FA, name: "CJK COMPATIBILITY IDEOGRAPH-2F8FA", aliases: &[] },
        Codepoint { codepoint: 0x2F8FB, name: "CJK COMPATIBILITY IDEOGRAPH-2F8FB", aliases: &[] },
        Codepoint { codepoint: 0x2F8FC, name: "CJK COMPATIBILITY IDEOGRAPH-2F8FC", aliases: &[] },
        Codepoint { codepoint: 0x2F8FD, name: "CJK COMPATIBILITY IDEOGRAPH-2F8FD", aliases: &[] },
        Codepoint { codepoint: 0x2F8FE, name: "CJK COMPATIBILITY IDEOGRAPH-2F8FE", aliases: &[] },
        Codepoint { codepoint: 0x2F8FF, name: "CJK COMPATIBILITY IDEOGRAPH-2F8FF", aliases: &[] },
        Codepoint { codepoint: 0x2F900, name: "CJK COMPATIBILITY IDEOGRAPH-2F900", aliases: &[] },
        Codepoint { codepoint: 0x2F901, name: "CJK COMPATIBILITY IDEOGRAPH-2F901", aliases: &[] },
        Codepoint { codepoint: 0x2F902, name: "CJK COMPATIBILITY IDEOGRAPH-2F902", aliases: &[] },
    ];
    assert(v@ =~= codepoint_table_849());
    v
}

pub open spec fn codepoint_table_850() -> Seq<Codepoint> {
    seq![
        Codepoint { codepoint: 0x2F903, name: "CJK COMPATIBILITY IDEOGRAPH-2F903", aliases: &[] },
        Codepoint { codepoint: 0x2F904, name: "CJK COMPATIBILITY IDEOGRAPH-2F904", aliases: &[] },
        Codepoint { codepoint: 0x2F905, name: "CJK COMPATIBILITY IDEOGRAPH-2F905", aliases: &[] },
        Codepoint { codepoint: 0x2F906, name: "CJK COMPATIBILITY IDEOGRAPH-2F906", aliases: &[] },
        Codepoint { codepoint: 0x2F907, name: "CJK COMPATIBILITY IDEOGRAPH-2F907", aliases: &[] },
        Codepoint { codepoint: 0x2F908, name: "CJK COMPATIBILITY IDEOGRAPH-2F908", aliases: &[] },
        Codepoint { codepoint: 0x2F909, name: "CJK COMPATIBILITY IDEOGRAPH-2F909", aliases: &[] },
        Codepoint { codepoint: 0x2F90A, name: "CJK COMPATIBILITY IDEOGRAPH-2F90A", aliases: &[] },
        Codepoint { codepoint: 0x2F90B, name: "CJK COMPATIBILITY IDEOGRAPH-2F90B", aliases: &[] },
        Codepoint { codepoint: 0x2F90C, name: "CJK COMPATIBILITY IDEOGRAPH-2F90C", aliases: &[] },
        Codepoint { codepoint: 0x2F90D, name: "CJK COMPATIBILITY IDEOGRAPH-2F90D", aliases: &[] },
        Codepoint { codepoint: 0x2F90E, name: "CJK COMPATIBILITY IDEOGRAPH-2F90E", aliases: &[] },
        Codepoint { codepoint: 0x2F90F, name: "CJK COMPATIBILITY IDEOGRAPH-2F90F", aliases: &[] },
        Codepoint { codepoint: 0x2F910, name: "CJK COMPATIBILITY IDEOGRAPH-2F910", aliases: &[] },
        Codepoint { codepoint: 0x2F911, name: "CJK COMPATIBILITY IDEOGRAPH-2F911", aliases: &[] },
        Codepoint { codepoint: 0x2F912, name: "CJK COMPATIBILITY IDEOGRAPH-2F912", aliases: &[] },
        Codepoint { codepoint: 0x2F913, name: "CJK COMPATIBILITY IDEOGRAPH-2F913", aliases: &[] },
        Codepoint { codepoint: 0x2F914, name: "CJK COMPATIBILITY IDEOGRAPH-2F914", aliases: &[] },
        Codepoint { codepoint: 0x2F915, name: "CJK COMPATIBILITY IDEOGRAPH-2F915", aliases: &[] },
        Codepoint { codepoint: 0x2F916, name: "CJK COMPATIBILITY IDEOGRAPH-2F916", aliases: &[] },
        Codepoint { codepoint: 0x2F917, name: "CJK COMPATIBILITY IDEOGRAPH-2F917", aliases: &[] },
        Codepoint { codepoint: 0x2F918, name: "CJK COMPATIBILITY IDEOGRAPH-2F918", aliases: &[] },
        Codepoint { codepoint: 0x2F919, name: "CJK COMPATIBILITY IDEOGRAPH-2F919", aliases: &[] },
        Codepoint { codepoint: 0x2F91A, name: "CJK COMPATIBILITY IDEOGRAPH-2F91A", aliases: &[] },
        Codepoint { codepoint: 0x2F91B, name: "CJK COMPATIBILITY IDEOGRAPH-2F91B", aliases: &[] },
        Codepoint { codepoint: 0x2F91C, name: "CJK COMPATIBILITY IDEOGRAPH-2F91C", aliases: &[] },
        Codepoint { codepoint: 0x2F91D, name: "CJK COMPATIBILITY IDEOGRAPH-2F91D", aliases: &[] },
        Codepoint { codepoint: 0x2F91E, name: "CJK COMPATIBILITY IDEOGRAPH-2F91E", aliases: &[] },
        Codepoint { codepoint: 0x2F91F, name: "CJK COMPATIBILITY IDEOGRAPH-2F91F", aliases: &[] },
        Codepoint { codepoint: 0x2F920, name: "CJK COMPATIBILITY IDEOGRAPH-2F920", aliases: &[] },
        Codepoint { codepoint: 0x2F921, name: "CJK COMPATIBILITY IDEOGRAPH-2F921", aliases: &[] },
        Codepoint { codepoint: 0x2F922, name: "CJK COMPATIBILITY IDEOGRAPH-2F922", aliases: &[] },
        Codepoint { codepoint: 0x2F923, name: "CJK COMPATIBILITY IDEOGRAPH-2F923", aliases: &[] },
        Codepoint { codepoint: 0x2F924, name: "CJK COMPATIBILITY IDEOGRAPH-2F924", aliases: &[] },
        Codepoint { codepoint: 0x2F925, name: "CJK COMPATIBILITY IDEOGRAPH-2F925", aliases: &[] },
        Codepoint { codepoint: 0x2F926, name: "CJK COMPATIBILITY IDEOGRAPH-2F926", aliases: &[] },
        Codepoint { codepoint: 0x2F927, name: "CJK COMPATIBILITY IDEOGRAPH-2F927", aliases: &[] },
        Codepoint { codepoint: 0x2F928, name: "CJK COMPATIBILITY IDEOGRAPH-2F928", aliases: &[] },
        Codepoint { codepoint: 0x2F929, name: "CJK COMPATIBILITY IDEOGRAPH-2F929", aliases: &[] },
        Codepoint { codepoint: 0x2F92A, name: "CJK COMPATIBILITY IDEOGRAPH-2F92A", aliases: &[] },
    ]
}

fn all_codepoints_850() -> (v: Vec<Codepoint>)
    ensures
        v@ == codepoint_table_850(),
{
    let v = vec![
        Codepoint { codepoint: 0x2F903, name: "CJK COMPATIBILITY IDEOGRAPH-2F903", aliases: &[] },
        Codepoint { codepoint: 0x2F904, name: "CJK COMPATIBILITY IDEOGRAPH-2F904", aliases: &[] },
        Codepoint { codepoint: 0x2F905, name: "CJK COMPATIBILITY IDEOGRAPH-2F905", aliases: &[] },
        Codepoint { codepoint: 0x2F906, name: "CJK COMPATIBILITY IDEOGRAPH-2F906", aliases: &[] },
        Codepoint { codepoint: 0x2F907, name: "CJK COMPATIBILITY IDEOGRAPH-2F907", aliases: &[] },
        Codepoint { codepoint: 0x2F908, name: "CJK COMPATIBILITY IDEOGRAPH-2F908", aliases: &[] },
        Codepoint { codepoint: 0x2F909, name: "CJK COMPATIBILITY IDEOGRAPH-2F909", aliases: &[] },
        Codepoint { codepoint: 0x2F90A, name: "CJK COMPATIBILITY IDEOGRAPH-2F90A", aliases: &[] },
        Codepoint { codepoint: 0x2F90B, name: "CJK COMPATIBILITY IDEOGRAPH-2F90B", aliases: &[] },
        Codepoint { codepoint: 0x2F90C, name: "CJK COMPATIBILITY IDEOGRAPH-2F90C", aliases: &[] },
        Codepoint { codepoint: 0x2F90D, name: "CJK COMPATIBILITY IDEOGRAPH-2F90D", aliases: &[] },
        Codepoint { codepoint: 0x2F90E, name: "CJK COMPATIBILITY IDEOGRAPH-2F90E", aliases: &[] },
        Codepoint { codepoint: 0x2F90F, name: "CJK COMPATIBILITY IDEOGRAPH-2F90F", aliases: &[] },
        Codepoint { codepoint: 0x2F910, name: "CJK COMPATIBILITY IDEOGRAPH-2F910", aliases: &[] },
        Codepoint { codepoint: 0x2F911, name: "CJK COMPATIBILITY IDEOGRAPH-2F911", aliases: &[] },
        Codepoint { codepoint: 0x2F912, name: "CJK COMPATIBILITY IDEOGRAPH-2F912", aliases: &[] },
        Codepoint { codepoint: 0x2F913, name: "CJK COMPATIBILITY IDEOGRAPH-2F913", aliases: &[] },
        Codepoint { codepoint: 0x2F914, name: "CJK COMPATIBILITY IDEOGRAPH-2F914", aliases: &[] },
        Codepoint { codepoint: 0x2F915, name: "CJK COMPATIBILITY IDEOGRAPH-2F915", aliases: &[] },
        Codepoint { codepoint: 0x2F916, name: "CJK COMPATIBILITY IDEOGRAPH-2F916", aliases: &[] },
        Codepoint { codepoint: 0x2F917, name: "CJK COMPATIBILITY IDEOGRAPH-2F917", aliases: &[] },
        Codepoint { codepoint: 0x2F918, name: "CJK COMPATIBILITY IDEOGRAPH-2F918", aliases: &[] },
        Codepoint { codepoint: 0x2F919, name: "CJK COMPATIBILITY IDEOGRAPH-2F919", aliases: &[] },
        Codepoint { codepoint: 0x2F91A, name: "CJK COMPATIBILITY IDEOGRAPH-2F91A", aliases: &[] },
        Codepoint { codepoint: 0x2F91B, name: "CJK COMPATIBILITY IDEOGRAPH-2F91B", aliases: &[] },
        Codepoint { codepoint: 0x2F91C, name: "CJK COMPATIBILITY IDEOGRAPH-2F91C", aliases: &[] },
        Codepoint { codepoint: 0x2F91D, name: "CJK COMPATIBILITY IDEOGRAPH-2F91D", aliases: &[] },
        Codepoint { codepoint: 0x2F91E, name: "CJK COMPATIBILITY IDEOGRAPH-2F91E", aliases: &[] },
        Codepoint { codepoint: 0x2F91F, name: "CJK COMPATIBILITY IDEOGRAPH-2F91F", aliases: &[] },
        Codepoint { codepoint: 0x2F920, name: "CJK COMPATIBILITY IDEOGRAPH-2F920", aliases: &[] },
        Codepoint { codepoint: 0x2F921, name: "CJK COMPATIBILITY IDEOGRAPH-2F921", aliases: &[] },
        Codepoint { codepoint: 0x2F922, name: "CJK COMPATIBILITY IDEOGRAPH-2F922", aliases: &[] },
        Codepoint { codepoint: 0x2F923, name: "CJK COMPATIBILITY IDEOGRAPH-2F923", aliases: &[] },
        Codepoint { codepoint: 0x2F924, name: "CJK COMPATIBILITY IDEOGRAPH-2F924", aliases: &[] },
        Codepoint { codepoint: 0x2F925, name: "CJK COMPATIBILITY IDEOGRAPH-2F925", aliases: &[] },
        Codepoint { codepoint: 0x2F926, name: "CJK COMPATIBILITY IDEOGRAPH-2F926", aliases: &[] },
        Codepoint { codepoint: 0x2F927, name: "CJK COMPATIBILITY IDEOGRAPH-2F927", aliases: &[] },
        Codepoint { codepoint: 0x2F928, name: "CJK COMPATIBILITY IDEOGRAPH-2F928", aliases: &[] },
        Codepoint { codepoint: 0x2F929, name: "CJK COMPATIBILITY IDEOGRAPH-2F929", aliases: &[] },
        Codepoint { codepoint: 0x2F92A, name: "CJK COMPATIBILITY IDEOGRAPH-2F92A", aliases: &[] },
    ];
    assert(v@ =~= codepoint_table_850());
    v
}

pub open spec fn codepoint_table_851() -> Seq<Codepoint> {
    seq![
        Codepoint { codepoint: 0x2F92B, name: "CJK COMPATIBILITY IDEOGRAPH-2F92B", aliases: &[] },
        Codepoint { codepoint: 0x2F92C, name: "CJK COMPATIBILITY IDEOGRAPH-2F92C", aliases: &[] },
        Codepoint { codepoint: 0x2F92D, name: "CJK COMPATIBILITY IDEOGRAPH-2F92D", aliases: &[] },
        Codepoint { codepoint: 0x2F92E, name: "CJK COMPATIBILITY IDEOGRAPH-2F92E", aliases: &[] },
        Codepoint { codepoint: 0x2F92F, name: "CJK COMPATIBILITY IDEOGRAPH-2F92F", aliases: &[] },
        Codepoint { codepoint: 0x2F930, name: "CJK COMPATIBILITY IDEOGRAPH-2F930", aliases: &[] },
        Codepoint { codepoint: 0x2F931, name: "CJK COMPATIBILITY IDEOGRAPH-2F931", aliases: &[] },
        Codepoint { codepoint: 0x2F932, name: "CJK COMPATIBILITY IDEOGRAPH-2F932", aliases: &[] },
        Codepoint { codepoint: 0x2F933, name: "CJK COMPATIBILITY IDEOGRAPH-2F933", aliases: &[] },
        Codepoint { codepoint: 0x2F934, name: "CJK COMPATIBILITY IDEOGRAPH-2F934", aliases: &[] },
        Codepoint { codepoint: 0x2F935, name: "CJK COMPATIBILITY IDEOGRAPH-2F935", aliases: &[] },
        Codepoint { codepoint: 0x2F936, name: "CJK COMPATIBILITY IDEOGRAPH-2F936", aliases: &[] },
        Codepoint { codepoint: 0x2F937, name: "CJK COMPATIBILITY IDEOGRAPH-2F937", aliases: &[] },
        Codepoint { codepoint: 0x2F938, name: "CJK COMPATIBILITY IDEOGRAPH-2F938", aliases: &[] },
        Codepoint { codepoint: 0x2F939, name: "CJK COMPATIBILITY IDEOGRAPH-2F939", aliases: &[] },
        Codepoint { codepoint: 0x2F93A, name: "CJK COMPATIBILITY IDEOGRAPH-2F93A", aliases: &[] },
        Codepoint { codepoint: 0x2F93B, name: "CJK COMPATIBILITY IDEOGRAPH-2F93B", aliases: &[] },
        Codepoint { codepoint: 0x2F93C, name: "CJK COMPATIBILITY IDEOGRAPH-2F93C", aliases: &[] },
        Codepoint { codepoint: 0x2F93D, name: "CJK COMPATIBILITY IDEOGRAPH-2F93D", aliases: &[] },
        Codepoint { codepoint: 0x2F93E, name: "CJK COMPATIBILITY IDEOGRAPH-2F93E", aliases: &[] },
        Codepoint { codepoint: 0x2F93F, name: "CJK COMPATIBILITY IDEOGRAPH-2F93F", aliases: &[] },
        Codepoint { codepoint: 0x2F940, name: "CJK COMPATIBILITY IDEOGRAPH-2F940", aliases: &[] },
        Codepoint { codepoint: 0x2F941, name: "CJK COMPATIBILITY IDEOGRAPH-2F941", aliases: &[] },
        Codepoint { codepoint: 0x2F942, name: "CJK COMPATIBILITY IDEOGRAPH-2F942", aliases: &[] },
        Codepoint { codepoint: 0x2F943, name: "CJK COMPATIBILITY IDEOGRAPH-2F943", aliases: &[] },
        Codepoint { codepoint: 0x2F944, name: "CJK COMPATIBILITY IDEOGRAPH-2F944", aliases: &[] },
        Codepoint { codepoint: 0x2F945, name: "CJK COMPATIBILITY IDEOGRAPH-2F945", aliases: &[] },
        Codepoint { codepoint: 0x2F946, name: "CJK COMPATIBILITY IDEOGRAPH-2F946", aliases: &[] },
        Codepoint { codepoint: 0x2F947, name: "CJK COMPATIBILITY IDEOGRAPH-2F947", aliases: &[] },
        Codepoint { codepoint: 0x2F948, name: "CJK COMPATIBILITY IDEOGRAPH-2F948", aliases: &[] },
        Codepoint { codepoint: 0x2F949, name: "CJK COMPATIBILITY IDEOGRAPH-2F949", aliases: &[] },
        Codepoint { codepoint: 0x2F94A, name: "CJK COMPATIBILITY IDEOGRAPH-2F94A", aliases: &[] },
        Codepoint { codepoint: 0x2F94B, name: "CJK COMPATIBILITY IDEOGRAPH-2F94B", aliases: &[] },
        Codepoint { codepoint: 0x2F94C, name: "CJK COMPATIBILITY IDEOGRAPH-2F94C", aliases: &[] },
        Codepoint { codepoint: 0x2F94D, name: "CJK COMPATIBILITY IDEOGRAPH-2F94D", aliases: &[] },
        Codepoint { codepoint: 0x2F94E, name: "CJK COMPATIBILITY IDEOGRAPH-2F94E", aliases: &[] },
        Codepoint { codepoint: 0x2F94F, name: "CJK COMPATIBILITY IDEOGRAPH-2F94F", aliases: &[] },
        Codepoint { codepoint: 0x2F950, name: "CJK COMPATIBILITY IDEOGRAPH-2F950", aliases: &[] },
        Codepoint { codepoint: 0x2F951, name: "CJK COMPATIBILITY IDEOGRAPH-2F951", aliases: &[] },
        Codepoint { codepoint: 0x2F952, name: "CJK COMPATIBILITY IDEOGRAPH-2F952", aliases: &[] },
    ]
}

fn all_codepoints_851() -> (v: Vec<Codepoint>)
    ensures
        v@ == codepoint_table_851(),
{
    let v = vec![
        Codepoint { codepoint: 0x2F92B, name: "CJK COMPATIBILITY IDEOGRAPH-2F92B", aliases: &[] },
        Codepoint { codepoint: 0x2F92C, name: "CJK COMPATIBILITY IDEOGRAPH-2F92C", aliases: &[] },
        Codepoint { codepoint: 0x2F92D, name: "CJK COMPATIBILITY IDEOGRAPH-2F92D", aliases: &[] },
        Codepoint { codepoint: 0x2F92E, name: "CJK COMPATIBILITY IDEOGRAPH-2F92E", aliases: &[] },
        Codepoint { codepoint: 0x2F92F, name: "CJK COMPATIBILITY IDEOGRAPH-2F92F", aliases: &[] },
        Codepoint { codepoint: 0x2F930, name: "CJK COMPATIBILITY IDEOGRAPH-2F930", aliases: &[] },
        Codepoint { codepoint: 0x2F931, name: "CJK COMPATIBILITY IDEOGRAPH-2F931", aliases: &[] },
        Codepoint { codepoint: 0x2F932, name: "CJK COMPATIBILITY IDEOGRAPH-2F932", aliases: &[] },
        Codepoint { codepoint: 0x2F933, name: "CJK COMPATIBILITY IDEOGRAPH-2F933", aliases: &[] },
        Codepoint { codepoint: 0x2F934, name: "CJK COMPATIBILITY IDEOGRAPH-2F934", aliases: &[] },
        Codepoint { codepoint: 0x2F935, name: "CJK COMPATIBILITY IDEOGRAPH-2F935", aliases: &[] },
        Codepoint { codepoint: 0x2F936, name: "CJK COMPATIBILITY IDEOGRAPH-2F936", aliases: &[] },
        Codepoint { codepoint: 0x2F937, name: "CJK COMPATIBILITY IDEOGRAPH-2F937", aliases: &[] },
        Codepoint { codepoint: 0x2F938, name: "CJK COMPATIBILITY IDEOGRAPH-2F938", aliases: &[] },
        Codepoint { codepoint: 0x2F939, name: "CJK COMPATIBILITY IDEOGRAPH-2F939", aliases: &[] },
        Codepoint { codepoint: 0x2F93A, name: "CJK COMPATIBILITY IDEOGRAPH-2F93A", aliases: &[] },
        Codepoint { codepoint: 0x2F93B, name: "CJK COMPATIBILITY IDEOGRAPH-2F93B", aliases: &[] },
        Codepoint { codepoint: 0x2F93C, name: "CJK COMPATIBILITY IDEOGRAPH-2F93C", aliases: &[] },
        Codepoint { codepoint: 0x2F93D, name: "CJK COMPATIBILITY IDEOGRAPH-2F93D", aliases: &[] },
        Codepoint { codepoint: 0x2F93E, name: "CJK COMPATIBILITY IDEOGRAPH-2F93E", aliases: &[] },
        Codepoint { codepoint: 0x2F93F, name: "CJK COMPATIBILITY IDEOGRAPH-2F93F", aliases: &[] },
        Codepoint { codepoint: 0x2F940, name: "CJK COMPATIBILITY IDEOGRAPH-2F940", aliases: &[] },
        Codepoint { codepoint: 0x2F941, name: "CJK COMPATIBILITY IDEOGRAPH-2F941", aliases: &[] },
        Codepoint { codepoint: 0x2F942, name: "CJK COMPATIBILITY IDEOGRAPH-2F942", aliases: &[] },
        Codepoint { codepoint: 0x2F943, name: "CJK COMPATIBILITY IDEOGRAPH-2F943", aliases: &[] },
        Codepoint { codepoint: 0x2F944, name: "CJK COMPATIBILITY IDEOGRAPH-2F944", aliases: &[] },
        Codepoint { codepoint: 0x2F945, name: "CJK COMPATIBILITY IDEOGRAPH-2F945", aliases: &[] },
        Codepoint { codepoint: 0x2F946, name: "CJK COMPATIBILITY IDEOGRAPH-2F946", aliases: &[] },
        Codepoint { codepoint: 0x2F947, name: "CJK COMPATIBILITY IDEOGRAPH-2F947", aliases: &[] },
        Codepoint { codepoint: 0x2F948, name: "CJK COMPATIBILITY IDEOGRAPH-2F948", aliases: &[] },
        Codepoint { codepoint: 0x2F949, name: "CJK COMPATIBILITY IDEOGRAPH-2F949", aliases: &[] },
        Codepoint { codepoint: 0x2F94A, name: "CJK COMPATIBILITY IDEOGRAPH-2F94A", aliases: &[] },
        Codepoint { codepoint: 0x2F94B, name: "CJK COMPATIBILITY IDEOGRAPH-2F94B", aliases: &[] },
        Codepoint { codepoint: 0x2F94C, name: "CJK COMPATIBILITY IDEOGRAPH-2F94C", aliases: &[] },
        Codepoint { codepoint: 0x2F94D, name: "CJK COMPATIBILITY IDEOGRAPH-2F94D", aliases: &[] },
        Codepoint { codepoint: 0x2F94E, name: "CJK COMPATIBILITY IDEOGRAPH-2F94E", aliases: &[] },
        Codepoint { codepoint: 0x2F94F, name: "CJK COMPATIBILITY IDEOGRAPH-2F94F", aliases: &[] },
        Codepoint { codepoint: 0x2F950, name: "CJK COMPATIBILITY IDEOGRAPH-2F950", aliases: &[] },
        Codepoint { codepoint: 0x2F951, name: "CJK COMPATIBILITY IDEOGRAPH-2F951", aliases: &[] },
        Codepoint { codepoint: 0x2F952, name: "CJK COMPATIBILITY IDEOGRAPH-2F952", aliases: &[] },
    ];
    assert(v@ =~= codepoint_table_851());
    v
}

pub open spec fn codepoint_table_852() -> Seq<Codepoint> {
    seq![
        Codepoint { codepoint: 0x2F953, name: "CJK COMPATIBILITY IDEOGRAPH-2F953", aliases: &[] },
        Codepoint { codepoint: 0x2F954, name: "CJK COMPATIBILITY IDEOGRAPH-2F954", aliases: &[] },
        Codepoint { codepoint: 0x2F955, name: "CJK COMPATIBILITY IDEOGRAPH-2F955", aliases: &[] },
        Codepoint { codepoint: 0x2F956, name: "CJK COMPATIBILITY IDEOGRAPH-2F956", aliases: &[] },
        Codepoint { codepoint: 0x2F957, name: "CJK COMPATIBILITY IDEOGRAPH-2F957", aliases: &[] },
        Codepoint { codepoint: 0x2F958, name: "CJK COMPATIBILITY IDEOGRAPH-2F958", aliases: &[] },
        Codepoint { codepoint: 0x2F959, name: "CJK COMPATIBILITY IDEOGRAPH-2F959", aliases: &[] },
        Codepoint { codepoint: 0x2F95A, name: "CJK COMPATIBILITY IDEOGRAPH-2F95A", aliases: &[] },
        Codepoint { codepoint: 0x2F95B, name: "CJK COMPATIBILITY IDEOGRAPH-2F95B", aliases: &[] },
        Codepoint { codepoint: 0x2F95C, name: "CJK COMPATIBILITY IDEOGRAPH-2F95C", aliases: &[] },
        Codepoint { codepoint: 0x2F95D, name: "CJK COMPATIBILITY IDEOGRAPH-2F95D", aliases: &[] },
        Codepoint { codepoint: 0x2F95E, name: "CJK COMPATIBILITY IDEOGRAPH-2F95E", aliases: &[] },
        Codepoint { codepoint: 0x2F95F, name: "CJK COMPATIBILITY IDEOGRAPH-2F95F", aliases: &[] },
        Codepoint { codepoint: 0x2F960, name: "CJK COMPATIBILITY IDEOGRAPH-2F960", aliases: &[] },
        Codepoint { codepoint: 0x2F961, name: "CJK COMPATIBILITY IDEOGRAPH-2F961", aliases: &[] },
        Codepoint { codepoint: 0x2F962, name: "CJK COMPATIBILITY IDEOGRAPH-2F962", aliases: &[] },
        Codepoint { codepoint: 0x2F963, name: "CJK COMPATIBILITY IDEOGRAPH-2F963", aliases: &[] },
        Codepoint { codepoint: 0x2F964, name: "CJK COMPATIBILITY IDEOGRAPH-2F964", aliases: &[] },
        Codepoint { codepoint: 0x2F965, name: "CJK COMPATIBILITY IDEOGRAPH-2F965", aliases: &[] },
        Codepoint { codepoint: 0x2F966, name: "CJK COMPATIBILITY IDEOGRAPH-2F966", aliases: &[] },
        Codepoint { codepoint: 0x2F967, name: "CJK COMPATIBILITY IDEOGRAPH-2F967", aliases: &[] },
        Codepoint { codepoint: 0x2F968, name: "CJK COMPATIBILITY IDEOGRAPH-2F968", aliases: &[] },
        Codepoint { codepoint: 0x2F969, name: "CJK COMPATIBILITY IDEOGRAPH-2F969", aliases: &[] },
        Codepoint { codepoint: 0x2F96A, name: "CJK COMPATIBILITY IDEOGRAPH-2F96A", aliases: &[] },
        Codepoint { codepoint: 0x2F96B, name: "CJK COMPATIBILITY IDEOGRAPH-2F96B", aliases: &[] },
        Codepoint { codepoint: 0x2F96C, name: "CJK COMPATIBILITY IDEOGRAPH-2F96C", aliases: &[] },
        Codepoint { codepoint: 0x2F96D, name: "CJK COMPATIBILITY IDEOGRAPH-2F96D", aliases: &[] },
        Codepoint { codepoint: 0x2F96E, name: "CJK COMPATIBILITY IDEOGRAPH-2F96E", aliases: &[] },
        Codepoint { codepoint: 0x2F96F, name: "CJK COMPATIBILITY IDEOGRAPH-2F96F", aliases: &[] },
        Codepoint { codepoint: 0x2F970, name: "CJK COMPATIBILITY IDEOGRAPH-2F970", aliases: &[] },
        Codepoint { codepoint: 0x2F971, name: "CJK COMPATIBILITY IDEOGRAPH-2F971", aliases: &[] },
        Codepoint { codepoint: 0x2F972, name: "CJK COMPATIBILITY IDEOGRAPH-2F972", aliases: &[] },
        Codepoint { codepoint: 0x2F973, name: "CJK COMPATIBILITY IDEOGRAPH-2F973", aliases: &[] },
        Codepoint { codepoint: 0x2F974, name: "CJK COMPATIBILITY IDEOGRAPH-2F974", aliases: &[] },
        Codepoint { codepoint: 0x2F975, name: "CJK COMPATIBILITY IDEOGRAPH-2F975", aliases: &[] },
        Codepoint { codepoint: 0x2F976, name: "CJK COMPATIBILITY IDEOGRAPH-2F976", aliases: &[] },
        Codepoint { codepoint: 0x2F977, name: "CJK COMPATIBILITY IDEOGRAPH-2F977", aliases: &[] },
        Codepoint { codepoint: 0x2F978, name: "CJK COMPATIBILITY IDEOGRAPH-2F978", aliases: &[] },
        Codepoint { codepoint: 0x2F979, name: "CJK COMPATIBILITY IDEOGRAPH-2F979", aliases: &[] },
        Codepoint { codepoint: 0x2F97A, name: "CJK COMPATIBILITY IDEOGRAPH-2F97A", aliases: &[] },
    ]
}

fn all_codepoints_852() -> (v: Vec<Codepoint>)
    ensures
        v@ == codepoint_table_852(),
{
    let v = vec![
        Codepoint { codepoint: 0x2F953, name: "CJK COMPATIBILITY IDEOGRAPH-2F953", aliases: &[] },
        Codepoint { codepoint: 0x2F954, name: "CJK COMPATIBILITY IDEOGRAPH-2F954", aliases: &[] },
        Codepoint { codepoint: 0x2F955, name: "CJK COMPATIBILITY IDEOGRAPH-2F955", aliases: &[] },
        Codepoint { codepoint: 0x2F956, name: "CJK COMPATIBILITY IDEOGRAPH-2F956", aliases: &[] },
        Codepoint { codepoint: 0x2F957, name: "CJK COMPATIBILITY IDEOGRAPH-2F957", aliases: &[] },
        Codepoint { codepoint: 0x2F958, name: "CJK COMPATIBILITY IDEOGRAPH-2F958", aliases: &[] },
        Codepoint { codepoint: 0x2F959, name: "CJK COMPATIBILITY IDEOGRAPH-2F959", aliases: &[] },
        Codepoint { codepoint: 0x2F95A, name: "CJK COMPATIBILITY IDEOGRAPH-2F95A", aliases: &[] },
        Codepoint { codepoint: 0x2F95B, name: "CJK COMPATIBILITY IDEOGRAPH-2F95B", aliases: &[] },
        Codepoint { codepoint: 0x2F95C, name: "CJK COMPATIBILITY IDEOGRAPH-2F95C", aliases: &[] },
        Codepoint { codepoint: 0x2F95D, name: "CJK COMPATIBILITY IDEOGRAPH-2F95D", aliases: &[] },
        Codepoint { codepoint: 0x2F95E, name: "CJK COMPATIBILITY IDEOGRAPH-2F95E", aliases: &[] },
        Codepoint { codepoint: 0x2F95F, name: "CJK COMPATIBILITY IDEOGRAPH-2F95F", aliases: &[] },
        Codepoint { codepoint: 0x2F960, name: "CJK COMPATIBILITY IDEOGRAPH-2F960", aliases: &[] },
        Codepoint { codepoint: 0x2F961, name: "CJK COMPATIBILITY IDEOGRAPH-2F961", aliases: &[] },
        Codepoint { codepoint: 0x2F962, name: "CJK COMPATIBILITY IDEOGRAPH-2F962", aliases: &[] },
        Codepoint { codepoint: 0x2F963, name: "CJK COMPATIBILITY IDEOGRAPH-2F963", aliases: &[] },
        Codepoint { codepoint: 0x2F964, name: "CJK COMPATIBILITY IDEOGRAPH-2F964", aliases: &[] },
        Codepoint { codepoint: 0x2F965, name: "CJK COMPATIBILITY IDEOGRAPH-2F965", aliases: &[] },
        Codepoint { codepoint: 0x2F966, name: "CJK COMPATIBILITY IDEOGRAPH-2F966", aliases: &[] },
        Codepoint { codepoint: 0x2F967, name: "CJK COMPATIBILITY IDEOGRAPH-2F967", aliases: &[] },
        Codepoint { codepoint: 0x2F968, name: "CJK COMPATIBILITY IDEOGRAPH-2F968", aliases: &[] },
        Codepoint { codepoint: 0x2F969, name: "CJK COMPATIBILITY IDEOGRAPH-2F969", aliases: &[] },
        Codepoint { codepoint: 0x2F96A, name: "CJK COMPATIBILITY IDEOGRAPH-2F96A", aliases: &[] },
        Codepoint { codepoint: 0x2F96B, name: "CJK COMPATIBILITY IDEOGRAPH-2F96B", aliases: &[] },
        Codepoint { codepoint: 0x2F96C, name: "CJK COMPATIBILITY IDEOGRAPH-2F96C", aliases: &[] },
        Codepoint { codepoint: 0x2F96D, name: "CJK COMPATIBILITY IDEOGRAPH-2F96D", aliases: &[] },
        Codepoint { codepoint: 0x2F96E, name: "CJK COMPATIBILITY IDEOGRAPH-2F96E", aliases: &[] },
        Codepoint { codepoint: 0x2F96F, name: "CJK COMPATIBILITY IDEOGRAPH-2F96F", aliases: &[] },
        Codepoint { codepoint: 0x2F970, name: "CJK COMPATIBILITY IDEOGRAPH-2F970", aliases: &[] },
        Codepoint { codepoint: 0x2F971, name: "CJK COMPATIBILITY IDEOGRAPH-2F971", aliases: &[] },
        Codepoint { codepoint: 0x2F972, name: "CJK COMPATIBILITY IDEOGRAPH-2F972", aliases: &[] },
        Codepoint { codepoint: 0x2F973, name: "CJK COMPATIBILITY IDEOGRAPH-2F973", aliases: &[] },
        Codepoint { codepoint: 0x2F974, name: "CJK COMPATIBILITY IDEOGRAPH-2F974", aliases: &[] },
        Codepoint { codepoint: 0x2F975, name: "CJK COMPATIBILITY IDEOGRAPH-2F975", aliases: &[] },
        Codepoint { codepoint: 0x2F976, name: "CJK COMPATIBILITY IDEOGRAPH-2F976", aliases: &[] },
        Codepoint { codepoint: 0x2F977, name: "CJK COMPATIBILITY IDEOGRAPH-2F977", aliases: &[] },
        Codepoint { codepoint: 0x2F978, name: "CJK COMPATIBILITY IDEOGRAPH-2F978", aliases: &[] },
        Codepoint { codepoint: 0x2F979, name: "CJK COMPATIBILITY IDEOGRAPH-2F979", aliases: &[] },
        Codepoint { codepoint: 0x2F97A, name: "CJK COMPATIBILITY IDEOGRAPH-2F97A", aliases: &[] },
    ];
    assert(v@ =~= codepoint_table_852());
    v
}

pub open spec fn codepoint_table_853() -> Seq<Codepoint> {
    seq![
        Codepoint { codepoint: 0x2F97B, name: "CJK COMPATIBILITY IDEOGRAPH-2F97B", aliases: &[] },
        Codepoint { codepoint: 0x2F97C, name: "CJK COMPATIBILITY IDEOGRAPH-2F97C", aliases: &[] },
        Codepoint { codepoint: 0x2F97D, name: "CJK COMPATIBILITY IDEOGRAPH-2F97D", aliases: &[] },
        Codepoint { codepoint: 0x2F97E, name: "CJK COMPATIBILITY IDEOGRAPH-2F97E", aliases: &[] },
        Codepoint { codepoint: 0x2F97F, name: "CJK COMPATIBILITY IDEOGRAPH-2F97F", aliases: &[] },
        Codepoint { codepoint: 0x2F980, name: "CJK COMPATIBILITY IDEOGRAPH-2F980", aliases: &[] },
        Codepoint { codepoint: 0x2F981, name: "CJK COMPATIBILITY IDEOGRAPH-2F981", aliases: &[] },
        Codepoint { codepoint: 0x2F982, name: "CJK COMPATIBILITY IDEOGRAPH-2F982", aliases: &[] },
        Codepoint { codepoint: 0x2F983, name: "CJK COMPATIBILITY IDEOGRAPH-2F983", aliases: &[] },
        Codepoint { codepoint: 0x2F984, name: "CJK COMPATIBILITY IDEOGRAPH-2F984", aliases: &[] },
        Codepoint { codepoint: 0x2F985, name: "CJK COMPATIBILITY IDEOGRAPH-2F985", aliases: &[] },
        Codepoint { codepoint: 0x2F986, name: "CJK COMPATIBILITY IDEOGRAPH-2F986", aliases: &[] },
        Codepoint { codepoint: 0x2F987, name: "CJK COMPATIBILITY IDEOGRAPH-2F987", aliases: &[] },
        Codepoint { codepoint: 0x2F988, name: "CJK COMPATIBILITY IDEOGRAPH-2F988", aliases: &[] },
        Codepoint { codepoint: 0x2F989, name: "CJK COMPATIBILITY IDEOGRAPH-2F989", aliases: &[] },
        Codepoint { codepoint: 0x2F98A, name: "CJK COMPATIBILITY IDEOGRAPH-2F98A", aliases: &[] },
        Codepoint { codepoint: 0x2F98B, name: "CJK COMPATIBILITY IDEOGRAPH-2F98B", aliases: &[] },
        Codepoint { codepoint: 0x2F98C, name: "CJK COMPATIBILITY IDEOGRAPH-2F98C", aliases: &[] },
        Codepoint { codepoint: 0x2F98D, name: "CJK COMPATIBILITY IDEOGRAPH-2F98D", aliases: &[] },
        Codepoint { codepoint: 0x2F98E, name: "CJK COMPATIBILITY IDEOGRAPH-2F98E", aliases: &[] },
        Codepoint { codepoint: 0x2F98F, name: "CJK COMPATIBILITY IDEOGRAPH-2F98F", aliases: &[] },
        Codepoint { codepoint: 0x2F990, name: "CJK COMPATIBILITY IDEOGRAPH-2F990", aliases: &[] },
        Codepoint { codepoint: 0x2F991, name: "CJK COMPATIBILITY IDEOGRAPH-2F991", aliases: &[] },
        Codepoint { codepoint: 0x2F992, name: "CJK COMPATIBILITY IDEOGRAPH-2F992", aliases: &[] },
        Codepoint { codepoint: 0x2F993, name: "CJK COMPATIBILITY IDEOGRAPH-2F993", aliases: &[] },
        Codepoint { codepoint: 0x2F994, name: "CJK COMPATIBILITY IDEOGRAPH-2F994", aliases: &[] },
        Codepoint { codepoint: 0x2F995, name: "CJK COMPATIBILITY IDEOGRAPH-2F995", aliases: &[] },
        Codepoint { codepoint: 0x2F996, name: "CJK COMPATIBILITY IDEOGRAPH-2F996", aliases: &[] },
        Codepoint { codepoint: 0x2F997, name: "CJK COMPATIBILITY IDEOGRAPH-2F997", aliases: &[] },
        Codepoint { codepoint: 0x2F998, name: "CJK COMPATIBILITY IDEOGRAPH-2F998", aliases: &[] },
        Codepoint { codepoint: 0x2F999, name: "CJK COMPATIBILITY IDEOGRAPH-2F999", aliases: &[] },
        Codepoint { codepoint: 0x2F99A, name: "CJK COMPATIBILITY IDEOGRAPH-2F99A", aliases: &[] },
        Codepoint { codepoint: 0x2F99B, name: "CJK COMPATIBILITY IDEOGRAPH-2F99B", aliases: &[] },
        Codepoint { codepoint: 0x2F99C, name: "CJK COMPATIBILITY IDEOGRAPH-2F99C", aliases: &[] },
        Codepoint { codepoint: 0x2F99D, name: "CJK COMPATIBILITY IDEOGRAPH-2F99D", aliases: &[] },
        Codepoint { codepoint: 0x2F99E, name: "CJK COMPATIBILITY IDEOGRAPH-2F99E", aliases: &[] },
        Codepoint { codepoint: 0x2F99F, name: "CJK COMPATIBILITY IDEOGRAPH-2F99F", aliases: &[] },
        Codepoint { codepoint: 0x2F9A0, name: "CJK COMPATIBILITY IDEOGRAPH-2F9A0", aliases: &[] },
        Codepoint { codepoint: 0x2F9A1, name: "CJK COMPATIBILITY IDEOGRAPH-2F9A1", aliases: &[] },
        Codepoint { codepoint: 0x2F9A2, name: "CJK COMPATIBILITY IDEOGRAPH-2F9A2", aliases: &[] },
    ]
}

fn all_codepoints_853() -> (v: Vec<Codepoint>)
    ensures
        v@ == codepoint_table_853(),
{
    let v = vec![
        Codepoint { codepoint: 0x2F97B, name: "CJK COMPATIBILITY IDEOGRAPH-2F97B", aliases: &[] },
        Codepoint { codepoint: 0x2F97C, name: "CJK COMPATIBILITY IDEOGRAPH-2F97C", aliases: &[] },
        Codepoint { codepoint: 0x2F97D, name: "CJK COMPATIBILITY IDEOGRAPH-2F97D", aliases: &[] },
        Codepoint { codepoint: 0x2F97E, name: "CJK COMPATIBILITY IDEOGRAPH-2F97E", aliases: &[] },
        Codepoint { codepoint: 0x2F97F, name: "CJK COMPATIBILITY IDEOGRAPH-2F97F", aliases: &[] },
        Codepoint { codepoint: 0x2F980, name: "CJK COMPATIBILITY IDEOGRAPH-2F980", aliases: &[] },
        Codepoint { codepoint: 0x2F981, name: "CJK COMPATIBILITY IDEOGRAPH-2F981", aliases: &[] },
        Codepoint { codepoint: 0x2F982, name: "CJK COMPATIBILITY IDEOGRAPH-2F982", aliases: &[] },
        Codepoint { codepoint: 0x2F983, name: "CJK COMPATIBILITY IDEOGRAPH-2F983", aliases: &[] },
        Codepoint { codepoint: 0x2F984, name: "CJK COMPATIBILITY IDEOGRAPH-2F984", aliases: &[] },
        Codepoint { codepoint: 0x2F985, name: "CJK COMPATIBILITY IDEOGRAPH-2F985", aliases: &[] },
        Codepoint { codepoint: 0x2F986, name: "CJK COMPATIBILITY IDEOGRAPH-2F986", aliases: &[] },
        Codepoint { codepoint: 0x2F987, name: "CJK COMPATIBILITY IDEOGRAPH-2F987", aliases: &[] },
        Codepoint { codepoint: 0x2F988, name: "CJK COMPATIBILITY IDEOGRAPH-2F988", aliases: &[] },
        Codepoint { codepoint: 0x2F989, name: "CJK COMPATIBILITY IDEOGRAPH-2F989", aliases: &[] },
        Codepoint { codepoint: 0x2F98A, name: "CJK COMPATIBILITY IDEOGRAPH-2F98A", aliases: &[] },
        Codepoint { codepoint: 0x2F98B, name: "CJK COMPATIBILITY IDEOGRAPH-2F98B", aliases: &[] },
        Codepoint { codepoint: 0x2F98C, name: "CJK COMPATIBILITY IDEOGRAPH-2F98C", aliases: &[] },
        Codepoint { codepoint: 0x2F98D, name: "CJK COMPATIBILITY IDEOGRAPH-2F98D", aliases: &[] },
        Codepoint { codepoint: 0x2F98E, name: "CJK COMPATIBILITY IDEOGRAPH-2F98E", aliases: &[] },
        Codepoint { codepoint: 0x2F98F, name: "CJK COMPATIBILITY IDEOGRAPH-2F98F", aliases: &[] },
        Codepoint { codepoint: 0x2F990, name: "CJK COMPATIBILITY IDEOGRAPH-2F990", aliases: &[] },
        Codepoint { codepoint: 0x2F991, name: "CJK COMPATIBILITY IDEOGRAPH-2F991", aliases: &[] },
        Codepoint { codepoint: 0x2F992, name: "CJK COMPATIBILITY IDEOGRAPH-2F992", aliases: &[] },
        Codepoint { codepoint: 0x2F993, name: "CJK COMPATIBILITY IDEOGRAPH-2F993", aliases: &[] },
        Codepoint { codepoint: 0x2F994, name: "CJK COMPATIBILITY IDEOGRAPH-2F994", aliases: &[] },
        Codepoint { codepoint: 0x2F995, name: "CJK COMPATIBILITY IDEOGRAPH-2F995", aliases: &[] },
        Codepoint { codepoint: 0x2F996, name: "CJK COMPATIBILITY IDEOGRAPH-2F996", aliases: &[] },
        Codepoint { codepoint: 0x2F997, name: "CJK COMPATIBILITY IDEOGRAPH-2F997", aliases: &[] },
        Codepoint { codepoint: 0x2F998, name: "CJK COMPATIBILITY IDEOGRAPH-2F998", aliases: &[] },
        Codepoint { codepoint: 0x2F999, name: "CJK COMPATIBILITY IDEOGRAPH-2F999", aliases: &[] },
        Codepoint { codepoint: 0x2F99A, name: "CJK COMPATIBILITY IDEOGRAPH-2F99A", aliases: &[] },
        Codepoint { codepoint: 0x2F99B, name: "CJK COMPATIBILITY IDEOGRAPH-2F99B", aliases: &[] },
        Codepoint { codepoint: 0x2F99C, name: "CJK COMPATIBILITY IDEOGRAPH-2F99C", aliases: &[] },
        Codepoint { codepoint: 0x2F99D, name: "CJK COMPATIBILITY IDEOGRAPH-2F99D", aliases: &[] },
        Codepoint { codepoint: 0x2F99E, name: "CJK COMPATIBILITY IDEOGRAPH-2F99E", aliases: &[] },
        Codepoint { codepoint: 0x2F99F, name: "CJK COMPATIBILITY IDEOGRAPH-2F99F", aliases: &[] },
        Codepoint { codepoint: 0x2F9A0, name: "CJK COMPATIBILITY IDEOGRAPH-2F9A0", aliases: &[] },
        Codepoint { codepoint: 0x2F9A1, name: "CJK COMPATIBILITY IDEOGRAPH-2F9A1", aliases: &[] },
        Codepoint { codepoint: 0x2F9A2, name: "CJK COMPATIBILITY IDEOGRAPH-2F9A2", aliases: &[] },
    ];
    assert(v@ =~= codepoint_table_853());
    v
}

pub open spec fn codepoint_table_854() -> Seq<Codepoint> {
    seq![
        Codepoint { codepoint: 0x2F9A3, name: "CJK COMPATIBILITY IDEOGRAPH-2F9A3", aliases: &[] },
        Codepoint { codepoint: 0x2F9A4, name: "CJK COMPATIBILITY IDEOGRAPH-2F9A4", aliases: &[] },
        Codepoint { codepoint: 0x2F9A5, name: "CJK COMPATIBILITY IDEOGRAPH-2F9A5", aliases: &[] },
        Codepoint { codepoint: 0x2F9A6, name: "CJK COMPATIBILITY IDEOGRAPH-2F9A6", aliases: &[] },
        Codepoint { codepoint: 0x2F9A7, name: "CJK COMPATIBILITY IDEOGRAPH-2F9A7", aliases: &[] },
        Codepoint { codepoint: 0x2F9A8, name: "CJK COMPATIBILITY IDEOGRAPH-2F9A8", aliases: &[] },
        Codepoint { codepoint: 0x2F9A9, name: "CJK COMPATIBILITY IDEOGRAPH-2F9A9", aliases: &[] },
        Codepoint { codepoint: 0x2F9AA, name: "CJK COMPATIBILITY IDEOGRAPH-2F9AA", aliases: &[] },
        Codepoint { codepoint: 0x2F9AB, name: "CJK COMPATIBILITY IDEOGRAPH-2F9AB", aliases: &[] },
        Codepoint { codepoint: 0x2F9AC, name: "CJK COMPATIBILITY IDEOGRAPH-2F9AC", aliases: &[] },
        Codepoint { codepoint: 0x2F9AD, name: "CJK COMPATIBILITY IDEOGRAPH-2F9AD", aliases: &[] },
        Codepoint { codepoint: 0x2F9AE, name: "CJK COMPATIBILITY IDEOGRAPH-2F9AE", aliases: &[] },
        Codepoint { codepoint: 0x2F9AF, name: "CJK COMPATIBILITY IDEOGRAPH-2F9AF", aliases: &[] },
        Codepoint { codepoint: 0x2F9B0, name: "CJK COMPATIBILITY IDEOGRAPH-2F9B0", aliases: &[] },
        Codepoint { codepoint: 0x2F9B1, name: "CJK COMPATIBILITY IDEOGRAPH-2F9B1", aliases: &[] },
        Codepoint { codepoint: 0x2F9B2, name: "CJK COMPATIBILITY IDEOGRAPH-2F9B2", aliases: &[] },
        Codepoint { codepoint: 0x2F9B3, name: "CJK COMPATIBILITY IDEOGRAPH-2F9B3", aliases: &[] },
        Codepoint { codepoint: 0x2F9B4, name: "CJK COMPATIBILITY IDEOGRAPH-2F9B4", aliases: &[] },
        Codepoint { codepoint: 0x2F9B5, name: "CJK COMPATIBILITY IDEOGRAPH-2F9B5", aliases: &[] },
        Codepoint { codepoint: 0x2F9B6, name: "CJK COMPATIBILITY IDEOGRAPH-2F9B6", aliases: &[] },
        Codepoint { codepoint: 0x2F9B7, name: "CJK COMPATIBILITY IDEOGRAPH-2F9B7", aliases: &[] },
        Codepoint { codepoint: 0x2F9B8, name: "CJK COMPATIBILITY IDEOGRAPH-2F9B8", aliases: &[] },
        Codepoint { codepoint: 0x2F9B9, name: "CJK COMPATIBILITY IDEOGRAPH-2F9B9", aliases: &[] },
        Codepoint { codepoint: 0x2F9BA, name: "CJK COMPATIBILITY IDEOGRAPH-2F9BA", aliases: &[] },
        Codepoint { codepoint: 0x2F9BB, name: "CJK COMPATIBILITY IDEOGRAPH-2F9BB", aliases: &[] },
        Codepoint { codepoint: 0x2F9BC, name: "CJK COMPATIBILITY IDEOGRAPH-2F9BC", aliases: &[] },
        Codepoint { codepoint: 0x2F9BD, name: "CJK COMPATIBILITY IDEOGRAPH-2F9BD", aliases: &[] },
        Codepoint { codepoint: 0x2F9BE, name: "CJK COMPATIBILITY IDEOGRAPH-2F9BE", aliases: &[] },
        Codepoint { codepoint: 0x2F9BF, name: "CJK COMPATIBILITY IDEOGRAPH-2F9BF", aliases: &[] },
        Codepoint { codepoint: 0x2F9C0, name: "CJK COMPATIBILITY IDEOGRAPH-2F9C0", aliases: &[] },
        Codepoint { codepoint: 0x2F9C1, name: "CJK COMPATIBILITY IDEOGRAPH-2F9C1", aliases: &[] },
        Codepoint { codepoint: 0x2F9C2, name: "CJK COMPATIBILITY IDEOGRAPH-2F9C2", aliases: &[] },
        Codepoint { codepoint: 0x2F9C3, name: "CJK COMPATIBILITY IDEOGRAPH-2F9C3", aliases: &[] },
        Codepoint { codepoint: 0x2F9C4, name: "CJK COMPATIBILITY IDEOGRAPH-2F9C4", aliases: &[] },
        Codepoint { codepoint: 0x2F9C5, name: "CJK COMPATIBILITY IDEOGRAPH-2F9C5", aliases: &[] },
        Codepoint { codepoint: 0x2F9C6, name: "CJK COMPATIBILITY IDEOGRAPH-2F9C6", aliases: &[] },
        Codepoint { codepoint: 0x2F9C7, name: "CJK COMPATIBILITY IDEOGRAPH-2F9C7", aliases: &[] },
        Codepoint { codepoint: 0x2F9C8, name: "CJK COMPATIBILITY IDEOGRAPH-2F9C8", aliases: &[] },
        Codepoint { codepoint: 0x2F9C9, name: "CJK COMPATIBILITY IDEOGRAPH-2F9C9", aliases: &[] },
        Codepoint { codepoint: 0x2F9CA, name: "CJK COMPATIBILITY IDEOGRAPH-2F9CA", aliases: &[] },
    ]
}

fn all_codepoints_854() -> (v: Vec<Codepoint>)
    ensures
        v@ == codepoint_table_854(),
{
    let v = vec![
        Codepoint { codepoint: 0x2F9A3, name: "CJK COMPATIBILITY IDEOGRAPH-2F9A3", aliases: &[] },
        Codepoint { codepoint: 0x2F9A4, name: "CJK COMPATIBILITY IDEOGRAPH-2F9A4", aliases: &[] },
        Codepoint { codepoint: 0x2F9A5, name: "CJK COMPATIBILITY IDEOGRAPH-2F9A5", aliases: &[] },
        Codepoint { codepoint: 0x2F9A6, name: "CJK COMPATIBILITY IDEOGRAPH-2F9A6", aliases: &[] },
        Codepoint { codepoint: 0x2F9A7, name: "CJK COMPATIBILITY IDEOGRAPH-2F9A7", aliases: &[] },
        Codepoint { codepoint: 0x2F9A8, name: "CJK COMPATIBILITY IDEOGRAPH-2F9A8", aliases: &[] },
        Codepoint { codepoint: 0x2F9A9, name: "CJK COMPATIBILITY IDEOGRAPH-2F9A9", aliases: &[] },
        Codepoint { codepoint: 0x2F9AA, name: "CJK COMPATIBILITY IDEOGRAPH-2F9AA", aliases: &[] },
        Codepoint { codepoint: 0x2F9AB, name: "CJK COMPATIBILITY IDEOGRAPH-2F9AB", aliases: &[] },
        Codepoint { codepoint: 0x2F9AC, name: "CJK COMPATIBILITY IDEOGRAPH-2F9AC", aliases: &[] },
        Codepoint { codepoint: 0x2F9AD, name: "CJK COMPATIBILITY IDEOGRAPH-2F9AD", aliases: &[] },
        Codepoint { codepoint: 0x2F9AE, name: "CJK COMPATIBILITY IDEOGRAPH-2F9AE", aliases: &[] },
        Codepoint { codepoint: 0x2F9AF, name: "CJK COMPATIBILITY IDEOGRAPH-2F9AF", aliases: &[] },
        Codepoint { codepoint: 0x2F9B0, name: "CJK COMPATIBILITY IDEOGRAPH-2F9B0", aliases: &[] },
        Codepoint { codepoint: 0x2F9B1, name: "CJK COMPATIBILITY IDEOGRAPH-2F9B1", aliases: &[] },
        Codepoint { codepoint: 0x2F9B2, name: "CJK COMPATIBILITY IDEOGRAPH-2F9B2", aliases: &[] },
        Codepoint { codepoint: 0x2F9B3, name: "CJK COMPATIBILITY IDEOGRAPH-2F9B3", aliases: &[] },
        Codepoint { codepoint: 0x2F9B4, name: "CJK COMPATIBILITY IDEOGRAPH-2F9B4", aliases: &[] },
        Codepoint { codepoint: 0x2F9B5, name: "CJK COMPATIBILITY IDEOGRAPH-2F9B5", aliases: &[] },
        Codepoint { codepoint: 0x2F9B6, name: "CJK COMPATIBILITY IDEOGRAPH-2F9B6", aliases: &[] },
        Codepoint { codepoint: 0x2F9B7, name: "CJK COMPATIBILITY IDEOGRAPH-2F9B7", aliases: &[] },
        Codepoint { codepoint: 0x2F9B8, name: "CJK COMPATIBILITY IDEOGRAPH-2F9B8", aliases: &[] },
        Codepoint { codepoint: 0x2F9B9, name: "CJK COMPATIBILITY IDEOGRAPH-2F9B9", aliases: &[] },
        Codepoint { codepoint: 0x2F9BA, name: "CJK COMPATIBILITY IDEOGRAPH-2F9BA", aliases: &[] },
        Codepoint { codepoint: 0x2F9BB, name: "CJK COMPATIBILITY IDEOGRAPH-2F9BB", aliases: &[] },
        Codepoint { codepoint: 0x2F9BC, name: "CJK COMPATIBILITY IDEOGRAPH-2F9BC", aliases: &[] },
        Codepoint { codepoint: 0x2F9BD, name: "CJK COMPATIBILITY IDEOGRAPH-2F9BD", aliases: &[] },
        Codepoint { codepoint: 0x2F9BE, name: "CJK COMPATIBILITY IDEOGRAPH-2F9BE", aliases: &[] },
        Codepoint { codepoint: 0x2F9BF, name: "CJK COMPATIBILITY IDEOGRAPH-2F9BF", aliases: &[] },
        Codepoint { codepoint: 0x2F9C0, name: "CJK COMPATIBILITY IDEOGRAPH-2F9C0", aliases: &[] },
        Codepoint { codepoint: 0x2F9C1, name: "CJK COMPATIBILITY IDEOGRAPH-2F9C1", aliases: &[] },
        Codepoint { codepoint: 0x2F9C2, name: "CJK COMPATIBILITY IDEOGRAPH-2F9C2", aliases: &[] },
        Codepoint { codepoint: 0x2F9C3, name: "CJK COMPATIBILITY IDEOGRAPH-2F9C3", aliases: &[] },
        Codepoint { codepoint: 0x2F9C4, name: "CJK COMPATIBILITY IDEOGRAPH-2F9C4", aliases: &[] },
        Codepoint { codepoint: 0x2F9C5, name: "CJK COMPATIBILITY IDEOGRAPH-2F9C5", aliases: &[] },
        Codepoint { codepoint: 0x2F9C6, name: "CJK COMPATIBILITY IDEOGRAPH-2F9C6", aliases: &[] },
        Codepoint { codepoint: 0x2F9C7, name: "CJK COMPATIBILITY IDEOGRAPH-2F9C7", aliases: &[] },
        Codepoint { codepoint: 0x2F9C8, name: "CJK COMPATIBILITY IDEOGRAPH-2F9C8", aliases: &[] },
        Codepoint { codepoint: 0x2F9C9, name: "CJK COMPATIBILITY IDEOGRAPH-2F9C9", aliases: &[] },
        Codepoint { codepoint: 0x2F9CA, name: "CJK COMPATIBILITY IDEOGRAPH-2F9CA", aliases: &[] },
    ];
    assert(v@ =~= codepoint_table_854());
    v
}

pub open spec fn codepoint_table_855() -> Seq<Codepoint> {
    seq![
        Codepoint { codepoint: 0x2F9CB, name: "CJK COMPATIBILITY IDEOGRAPH-2F9CB", aliases: &[] },
        Codepoint { codepoint: 0x2F9CC, name: "CJK COMPATIBILITY IDEOGRAPH-2F9CC", aliases: &[] },
        Codepoint { codepoint: 0x2F9CD, name: "CJK COMPATIBILITY IDEOGRAPH-2F9CD", aliases: &[] },
        Codepoint { codepoint: 0x2F9CE, name: "CJK COMPATIBILITY IDEOGRAPH-2F9CE", aliases: &[] },
        Codepoint { codepoint: 0x2F9CF, name: "CJK COMPATIBILITY IDEOGRAPH-2F9CF", aliases: &[] },
        Codepoint { codepoint: 0x2F9D0, name: "CJK COMPATIBILITY IDEOGRAPH-2F9D0", aliases: &[] },
        Codepoint { codepoint: 0x2F9D1, name: "CJK COMPATIBILITY IDEOGRAPH-2F9D1", aliases: &[] },
        Codepoint { codepoint: 0x2F9D2, name: "CJK COMPATIBILITY IDEOGRAPH-2F9D2", aliases: &[] },
        Codepoint { codepoint: 0x2F9D3, name: "CJK COMPATIBILITY IDEOGRAPH-2F9D3", aliases: &[] },
        Codepoint { codepoint: 0x2F9D4, name: "CJK COMPATIBILITY IDEOGRAPH-2F9D4", aliases: &[] },
        Codepoint { codepoint: 0x2F9D5, name: "CJK COMPATIBILITY IDEOGRAPH-2F9D5", aliases: &[] },
        Codepoint { codepoint: 0x2F9D6, name: "CJK COMPATIBILITY IDEOGRAPH-2F9D6", aliases: &[] },
        Codepoint { codepoint: 0x2F9D7, name: "CJK COMPATIBILITY IDEOGRAPH-2F9D7", aliases: &[] },
        Codepoint { codepoint: 0x2F9D8, name: "CJK COMPATIBILITY IDEOGRAPH-2F9D8", aliases: &[] },
        Codepoint { codepoint: 0x2F9D9, name: "CJK COMPATIBILITY IDEOGRAPH-2F9D9", aliases: &[] },
        Codepoint { codepoint: 0x2F9DA, name: "CJK COMPATIBILITY IDEOGRAPH-2F9DA", aliases: &[] },
        Codepoint { codepoint: 0x2F9DB, name: "CJK COMPATIBILITY IDEOGRAPH-2F9DB", aliases: &[] },
        Codepoint { codepoint: 0x2F9DC, name: "CJK COMPATIBILITY IDEOGRAPH-2F9DC", aliases: &[] },
        Codepoint { codepoint: 0x2F9DD, name: "CJK COMPATIBILITY IDEOGRAPH-2F9DD", aliases: &[] },
        Codepoint { codepoint: 0x2F9DE, name: "CJK COMPATIBILITY IDEOGRAPH-2F9DE", aliases: &[] },
        Codepoint { codepoint: 0x2F9DF, name: "CJK COMPATIBILITY IDEOGRAPH-2F9DF", aliases: &[] },
        Codepoint { codepoint: 0x2F9E0, name: "CJK COMPATIBILITY IDEOGRAPH-2F9E0", aliases: &[] },
        Codepoint { codepoint: 0x2F9E1, name: "CJK COMPATIBILITY IDEOGRAPH-2F9E1", aliases: &[] },
        Codepoint { codepoint: 0x2F9E2, name: "CJK COMPATIBILITY IDEOGRAPH-2F9E2", aliases: &[] },
        Codepoint { codepoint: 0x2F9E3, name: "CJK COMPATIBILITY IDEOGRAPH-2F9E3", aliases: &[] },
        Codepoint { codepoint: 0x2F9E4, name: "CJK COMPATIBILITY IDEOGRAPH-2F9E4", aliases: &[] },
        Codepoint { codepoint: 0x2F9E5, name: "CJK COMPATIBILITY IDEOGRAPH-2F9E5", aliases: &[] },
        Codepoint { codepoint: 0x2F9E6, name: "CJK COMPATIBILITY IDEOGRAPH-2F9E6", aliases: &[] },
        Codepoint { codepoint: 0x2F9E7, name: "CJK COMPATIBILITY IDEOGRAPH-2F9E7", aliases: &[] },
        Codepoint { codepoint: 0x2F9E8, name: "CJK COMPATIBILITY IDEOGRAPH-2F9E8", aliases: &[] },
        Codepoint { codepoint: 0x2F9E9, name: "CJK COMPATIBILITY IDEOGRAPH-2F9E9", aliases: &[] },
        Codepoint { codepoint: 0x2F9EA, name: "CJK COMPATIBILITY IDEOGRAPH-2F9EA", aliases: &[] },
        Codepoint { codepoint: 0x2F9EB, name: "CJK COMPATIBILITY IDEOGRAPH-2F9EB", aliases: &[] },
        Codepoint { codepoint: 0x2F9EC, name: "CJK COMPATIBILITY IDEOGRAPH-2F9EC", aliases: &[] },
        Codepoint { codepoint: 0x2F9ED, name: "CJK COMPATIBILITY IDEOGRAPH-2F9ED", aliases: &[] },
        Codepoint { codepoint: 0x2F9EE, name: "CJK COMPATIBILITY IDEOGRAPH-2F9EE", aliases: &[] },
        Codepoint { codepoint: 0x2F9EF, name: "CJK COMPATIBILITY IDEOGRAPH-2F9EF", aliases: &[] },
        Codepoint { codepoint: 0x2F9F0, name: "CJK COMPATIBILITY IDEOGRAPH-2F9F0", aliases: &[] },
        Codepoint { codepoint: 0x2F9F1, name: "CJK COMPATIBILITY IDEOGRAPH-2F9F1", aliases: &[] },
        Codepoint { codepoint: 0x2F9F2, name: "CJK COMPATIBILITY IDEOGRAPH-2F9F2", aliases: &[] },
    ]
}

fn all_codepoints_855() -> (v: Vec<Codepoint>)
    ensures
        v@ == codepoint_table_855(),
{
    let v = vec![
        Codepoint { codepoint: 0x2F9CB, name: "CJK COMPATIBILITY IDEOGRAPH-2F9CB", aliases: &[] },
        Codepoint { codepoint: 0x2F9CC, name: "CJK COMPATIBILITY IDEOGRAPH-2F9CC", aliases: &[] },
        Codepoint { codepoint: 0x2F9CD, name: "CJK COMPATIBILITY IDEOGRAPH-2F9CD", aliases: &[] },
        Codepoint { codepoint: 0x2F9CE, name: "CJK COMPATIBILITY IDEOGRAPH-2F9CE", aliases: &[] },
        Codepoint { codepoint: 0x2F9CF, name: "CJK COMPATIBILITY IDEOGRAPH-2F9CF", aliases: &[] },
        Codepoint { codepoint: 0x2F9D0, name: "CJK COMPATIBILITY IDEOGRAPH-2F9D0", aliases: &[] },
        Codepoint { codepoint: 0x2F9D1, name: "CJK COMPATIBILITY IDEOGRAPH-2F9D1", aliases: &[] },
        Codepoint { codepoint: 0x2F9D2, name: "CJK COMPATIBILITY IDEOGRAPH-2F9D2", aliases: &[] },
        Codepoint { codepoint: 0x2F9D3, name: "CJK COMPATIBILITY IDEOGRAPH-2F9D3", aliases: &[] },
        Codepoint { codepoint: 0x2F9D4, name: "CJK COMPATIBILITY IDEOGRAPH-2F9D4", aliases: &[] },
        Codepoint { codepoint: 0x2F9D5, name: "CJK COMPATIBILITY IDEOGRAPH-2F9D5", aliases: &[] },
        Codepoint { codepoint: 0x2F9D6, name: "CJK COMPATIBILITY IDEOGRAPH-2F9D6", aliases: &[] },
        Codepoint { codepoint: 0x2F9D7, name: "CJK COMPATIBILITY IDEOGRAPH-2F9D7", aliases: &[] },
        Codepoint { codepoint: 0x2F9D8, name: "CJK COMPATIBILITY IDEOGRAPH-2F9D8", aliases: &[] },
        Codepoint { codepoint: 0x2F9D9, name: "CJK COMPATIBILITY IDEOGRAPH-2F9D9", aliases: &[] },
        Codepoint { codepoint: 0x2F9DA, name: "CJK COMPATIBILITY IDEOGRAPH-2F9DA", aliases: &[] },
        Codepoint { codepoint: 0x2F9DB, name: "CJK COMPATIBILITY IDEOGRAPH-2F9DB", aliases: &[] },
        Codepoint { codepoint: 0x2F9DC, name: "CJK COMPATIBILITY IDEOGRAPH-2F9DC", aliases: &[] },
        Codepoint { codepoint: 0x2F9DD, name: "CJK COMPATIBILITY IDEOGRAPH-2F9DD", aliases: &[] },
        Codepoint { codepoint: 0x2F9DE, name: "CJK COMPATIBILITY IDEOGRAPH-2F9DE", aliases: &[] },
        Codepoint { codepoint: 0x2F9DF, name: "CJK COMPATIBILITY IDEOGRAPH-2F9DF", aliases: &[] },
        Codepoint { codepoint: 0x2F9E0, name: "CJK COMPATIBILITY IDEOGRAPH-2F9E0", aliases: &[] },
        Codepoint { codepoint: 0x2F9E1, name: "CJK COMPATIBILITY IDEOGRAPH-2F9E1", aliases: &[] },
        Codepoint { codepoint: 0x2F9E2, name: "CJK COMPATIBILITY IDEOGRAPH-2F9E2", aliases: &[] },
        Codepoint { codepoint: 0x2F9E3, name: "CJK COMPATIBILITY IDEOGRAPH-2F9E3", aliases: &[] },
        Codepoint { codepoint: 0x2F9E4, name: "CJK COMPATIBILITY IDEOGRAPH-2F9E4", aliases: &[] },
        Codepoint { codepoint: 0x2F9E5, name: "CJK COMPATIBILITY IDEOGRAPH-2F9E5", aliases: &[] },
        Codepoint { codepoint: 0x2F9E6, name: "CJK COMPATIBILITY IDEOGRAPH-2F9E6", aliases: &[] },
        Codepoint { codepoint: 0x2F9E7, name: "CJK COMPATIBILITY IDEOGRAPH-2F9E7", aliases: &[] },
        Codepoint { codepoint: 0x2F9E8, name: "CJK COMPATIBILITY IDEOGRAPH-2F9E8", aliases: &[] },
        Codepoint { codepoint: 0x2F9E9, name: "CJK COMPATIBILITY IDEOGRAPH-2F9E9", aliases: &[] },
        Codepoint { codepoint: 0x2F9EA, name: "CJK COMPATIBILITY IDEOGRAPH-2F9EA", aliases: &[] },
        Codepoint { codepoint: 0x2F9EB, name: "CJK COMPATIBILITY IDEOGRAPH-2F9EB", aliases: &[] },
        Codepoint { codepoint: 0x2F9EC, name: "CJK COMPATIBILITY IDEOGRAPH-2F9EC", aliases: &[] },
        Codepoint { codepoint: 0x2F9ED, name: "CJK COMPATIBILITY IDEOGRAPH-2F9ED", aliases: &[] },
        Codepoint { codepoint: 0x2F9EE, name: "CJK COMPATIBILITY IDEOGRAPH-2F9EE", aliases: &[] },
        Codepoint { codepoint: 0x2F9EF, name: "CJK COMPATIBILITY IDEOGRAPH-2F9EF", aliases: &[] },
        Codepoint { codepoint: 0x2F9F0, name: "CJK COMPATIBILITY IDEOGRAPH-2F9F0", aliases: &[] },
        Codepoint { codepoint: 0x2F9F1, name: "CJK COMPATIBILITY IDEOGRAPH-2F9F1", aliases: &[] },
        Codepoint { codepoint: 0x2F9F2, name: "CJK COMPATIBILITY IDEOGRAPH-2F9F2", aliases: &[] },
    ];
    assert(v@ =~= codepoint_table_855());
    v
}

pub open spec fn codepoint_table_856() -> Seq<Codepoint> {
    seq![
        Codepoint { codepoint: 0x2F9F3, name: "CJK COMPATIBILITY IDEOGRAPH-2F9F3", aliases: &[] },
        Codepoint { codepoint: 0x2F9F4, name: "CJK COMPATIBILITY IDEOGRAPH-2F9F4", aliases: &[] },
        Codepoint { codepoint: 0x2F9F5, name: "CJK COMPATIBILITY IDEOGRAPH-2F9F5", aliases: &[] },
        Codepoint { codepoint: 0x2F9F6, name: "CJK COMPATIBILITY IDEOGRAPH-2F9F6", aliases: &[] },
        Codepoint { codepoint: 0x2F9F7, name: "CJK COMPATIBILITY IDEOGRAPH-2F9F7", aliases: &[] },
        Codepoint { codepoint: 0x2F9F8, name: "CJK COMPATIBILITY IDEOGRAPH-2F9F8", aliases: &[] },
        Codepoint { codepoint: 0x2F9F9, name: "CJK COMPATIBILITY IDEOGRAPH-2F9F9", aliases: &[] },
        Codepoint { codepoint: 0x2F9FA, name: "CJK COMPATIBILITY IDEOGRAPH-2F9FA", aliases: &[] },
        Codepoint { codepoint: 0x2F9FB, name: "CJK COMPATIBILITY IDEOGRAPH-2F9FB", aliases: &[] },
        Codepoint { codepoint: 0x2F9FC, name: "CJK COMPATIBILITY IDEOGRAPH-2F9FC", aliases: &[] },
        Codepoint { codepoint: 0x2F9FD, name: "CJK COMPATIBILITY IDEOGRAPH-2F9FD", aliases: &[] },
        Codepoint { codepoint: 0x2F9FE, name: "CJK COMPATIBILITY IDEOGRAPH-2F9FE", aliases: &[] },
        Codepoint { codepoint: 0x2F9FF, name: "CJK COMPATIBILITY IDEOGRAPH-2F9FF", aliases: &[] },
        Codepoint { codepoint: 0x2FA00, name: "CJK COMPATIBILITY IDEOGRAPH-2FA00", aliases: &[] },
        Codepoint { codepoint: 0x2FA01, name: "CJK COMPATIBILITY IDEOGRAPH-2FA01", aliases: &[] },
        Codepoint { codepoint: 0x2FA02, name: "CJK COMPATIBILITY IDEOGRAPH-2FA02", aliases: &[] },
        Codepoint { codepoint: 0x2FA03, name: "CJK COMPATIBILITY IDEOGRAPH-2FA03", aliases: &[] },
        Codepoint { codepoint: 0x2FA04, name: "CJK COMPATIBILITY IDEOGRAPH-2FA04", aliases: &[] },
        Codepoint { codepoint: 0x2FA05, name: "CJK COMPATIBILITY IDEOGRAPH-2FA05", aliases: &[] },
        Codepoint { codepoint: 0x2FA06, name: "CJK COMPATIBILITY IDEOGRAPH-2FA06", aliases: &[] },
        Codepoint { codepoint: 0x2FA07, name: "CJK COMPATIBILITY IDEOGRAPH-2FA07", aliases: &[] },
        Codepoint { codepoint: 0x2FA08, name: "CJK COMPATIBILITY IDEOGRAPH-2FA08", aliases: &[] },
        Codepoint { codepoint: 0x2FA09, name: "CJK COMPATIBILITY IDEOGRAPH-2FA09", aliases: &[] },
        Codepoint { codepoint: 0x2FA0A, name: "CJK COMPATIBILITY IDEOGRAPH-2FA0A", aliases: &[] },
        Codepoint { codepoint: 0x2FA0B, name: "CJK COMPATIBILITY IDEOGRAPH-2FA0B", aliases: &[] },
        Codepoint { codepoint: 0x2FA0C, name: "CJK COMPATIBILITY IDEOGRAPH-2FA0C", aliases: &[] },
        Codepoint { codepoint: 0x2FA0D, name: "CJK COMPATIBILITY IDEOGRAPH-2FA0D", aliases: &[] },
        Codepoint { codepoint: 0x2FA0E, name: "CJK COMPATIBILITY IDEOGRAPH-2FA0E", aliases: &[] },
        Codepoint { codepoint: 0x2FA0F, name: "CJK COMPATIBILITY IDEOGRAPH-2FA0F", aliases: &[] },
        Codepoint { codepoint: 0x2FA10, name: "CJK COMPATIBILITY IDEOGRAPH-2FA10", aliases: &[] },
        Codepoint { codepoint: 0x2FA11, name: "CJK COMPATIBILITY IDEOGRAPH-2FA11", aliases: &[] },
        Codepoint { codepoint: 0x2FA12, name: "CJK COMPATIBILITY IDEOGRAPH-2FA12", aliases: &[] },
        Codepoint { codepoint: 0x2FA13, name: "CJK COMPATIBILITY IDEOGRAPH-2FA13", aliases: &[] },
        Codepoint { codepoint: 0x2FA14, name: "CJK COMPATIBILITY IDEOGRAPH-2FA14", aliases: &[] },
        Codepoint { codepoint: 0x2FA15, name: "CJK COMPATIBILITY IDEOGRAPH-2FA15", aliases: &[] },
        Codepoint { codepoint: 0x2FA16, name: "CJK COMPATIBILITY IDEOGRAPH-2FA16", aliases: &[] },
        Codepoint { codepoint: 0x2FA17, name: "CJK COMPATIBILITY IDEOGRAPH-2FA17", aliases: &[] },
        Codepoint { codepoint: 0x2FA18, name: "CJK COMPATIBILITY IDEOGRAPH-2FA18", aliases: &[] },
        Codepoint { codepoint: 0x2FA19, name: "CJK COMPATIBILITY IDEOGRAPH-2FA19", aliases: &[] },
        Codepoint { codepoint: 0x2FA1A, name: "CJK COMPATIBILITY IDEOGRAPH-2FA1A", aliases: &[] },
    ]
}

fn all_codepoints_856() -> (v: Vec<Codepoint>)
    ensures
        v@ == codepoint_table_856(),
{
    let v = vec![
        Codepoint { codepoint: 0x2F9F3, name: "CJK COMPATIBILITY IDEOGRAPH-2F9F3", aliases: &[] },
        Codepoint { codepoint: 0x2F9F4, name: "CJK COMPATIBILITY IDEOGRAPH-2F9F4", aliases: &[] },
        Codepoint { codepoint: 0x2F9F5, name: "CJK COMPATIBILITY IDEOGRAPH-2F9F5", aliases: &[] },
        Codepoint { codepoint: 0x2F9F6, name: "CJK COMPATIBILITY IDEOGRAPH-2F9F6", aliases: &[] },
        Codepoint { codepoint: 0x2F9F7, name: "CJK COMPATIBILITY IDEOGRAPH-2F9F7", aliases: &[] },
        Codepoint { codepoint: 0x2F9F8, name: "CJK COMPATIBILITY IDEOGRAPH-2F9F8", aliases: &[] },
        Codepoint { codepoint: 0x2F9F9, name: "CJK COMPATIBILITY IDEOGRAPH-2F9F9", aliases: &[] },
        Codepoint { codepoint: 0x2F9FA, name: "CJK COMPATIBILITY IDEOGRAPH-2F9FA", aliases: &[] },
        Codepoint { codepoint: 0x2F9FB, name: "CJK COMPATIBILITY IDEOGRAPH-2F9FB", aliases: &[] },
        Codepoint { codepoint: 0x2F9FC, name: "CJK COMPATIBILITY IDEOGRAPH-2F9FC", aliases: &[] },
        Codepoint { codepoint: 0x2F9FD, name: "CJK COMPATIBILITY IDEOGRAPH-2F9FD", aliases: &[] },
        Codepoint { codepoint: 0x2F9FE, name: "CJK COMPATIBILITY IDEOGRAPH-2F9FE", aliases: &[] },
        Codepoint { codepoint: 0x2F9FF, name: "CJK COMPATIBILITY IDEOGRAPH-2F9FF", aliases: &[] },
        Codepoint { codepoint: 0x2FA00, name: "CJK COMPATIBILITY IDEOGRAPH-2FA00", aliases: &[] },
        Codepoint { codepoint: 0x2FA01, name: "CJK COMPATIBILITY IDEOGRAPH-2FA01", aliases: &[] },
        Codepoint { codepoint: 0x2FA02, name: "CJK COMPATIBILITY IDEOGRAPH-2FA02", aliases: &[] },
        Codepoint { codepoint: 0x2FA03, name: "CJK COMPATIBILITY IDEOGRAPH-2FA03", aliases: &[] },
        Codepoint { codepoint: 0x2FA04, name: "CJK COMPATIBILITY IDEOGRAPH-2FA04", aliases: &[] },
        Codepoint { codepoint: 0x2FA05, name: "CJK COMPATIBILITY IDEOGRAPH-2FA05", aliases: &[] },
        Codepoint { codepoint: 0x2FA06, name: "CJK COMPATIBILITY IDEOGRAPH-2FA06", aliases: &[] },
        Codepoint { codepoint: 0x2FA07, name: "CJK COMPATIBILITY IDEOGRAPH-2FA07", aliases: &[] },
        Codepoint { codepoint: 0x2FA08, name: "CJK COMPATIBILITY IDEOGRAPH-2FA08", aliases: &[] },
        Codepoint { codepoint: 0x2FA09, name: "CJK COMPATIBILITY IDEOGRAPH-2FA09", aliases: &[] },
        Codepoint { codepoint: 0x2FA0A, name: "CJK COMPATIBILITY IDEOGRAPH-2FA0A", aliases: &[] },
        Codepoint { codepoint: 0x2FA0B, name: "CJK COMPATIBILITY IDEOGRAPH-2FA0B", aliases: &[] },
        Codepoint { codepoint: 0x2FA0C, name: "CJK COMPATIBILITY IDEOGRAPH-2FA0C", aliases: &[] },
        Codepoint { codepoint: 0x2FA0D, name: "CJK COMPATIBILITY IDEOGRAPH-2FA0D", aliases: &[] },
        Codepoint { codepoint: 0x2FA0E, name: "CJK COMPATIBILITY IDEOGRAPH-2FA0E", aliases: &[] },
        Codepoint { codepoint: 0x2FA0F, name: "CJK COMPATIBILITY IDEOGRAPH-2FA0F", aliases: &[] },
        Codepoint { codepoint: 0x2FA10, name: "CJK COMPATIBILITY IDEOGRAPH-2FA10", aliases: &[] },
        Codepoint { codepoint: 0x2FA11, name: "CJK COMPATIBILITY IDEOGRAPH-2FA11", aliases: &[] },
        Codepoint { codepoint: 0x2FA12, name: "CJK COMPATIBILITY IDEOGRAPH-2FA12", aliases: &[] },
        Codepoint { codepoint: 0x2FA13, name: "CJK COMPATIBILITY IDEOGRAPH-2FA13", aliases: &[] },
        Codepoint { codepoint: 0x2FA14, name: "CJK COMPATIBILITY IDEOGRAPH-2FA14", aliases: &[] },
        Codepoint { codepoint: 0x2FA15, name: "CJK COMPATIBILITY IDEOGRAPH-2FA15", aliases: &[] },
        Codepoint { codepoint: 0x2FA16, name: "CJK COMPATIBILITY IDEOGRAPH-2FA16", aliases: &[] },
        Codepoint { codepoint: 0x2FA17, name: "CJK COMPATIBILITY IDEOGRAPH-2FA17", aliases: &[] },
        Codepoint { codepoint: 0x2FA18, name: "CJK COMPATIBILITY IDEOGRAPH-2FA18", aliases: &[] },
        Codepoint { codepoint: 0x2FA19, name: "CJK COMPATIBILITY IDEOGRAPH-2FA19", aliases: &[] },
        Codepoint { codepoint: 0x2FA1A, name: "CJK COMPATIBILITY IDEOGRAPH-2FA1A", aliases: &[] },
    ];
    assert(v@ =~= codepoint_table_856());
    v
}

pub open spec fn codepoint_table_857() -> Seq<Codepoint> {
    seq![
        Codepoint { codepoint: 0x2FA1B, name: "CJK COMPATIBILITY IDEOGRAPH-2FA1B", aliases: &[] },
        Codepoint { codepoint: 0x2FA1C, name: "CJK COMPATIBILITY IDEOGRAPH-2FA1C", aliases: &[] },
        Codepoint { codepoint: 0x2FA1D, name: "CJK COMPATIBILITY IDEOGRAPH-2FA1D", aliases: &[] },
        Codepoint { codepoint: 0x30000, name: "<CJK Ideograph Extension G, First>", aliases: &[] },
        Codepoint { codepoint: 0x3134A, name: "<CJK Ideograph Extension G, Last>", aliases: &[] },
        Codepoint { codepoint: 0xE0001, name: "LANGUAGE TAG", aliases: &[] },
        Codepoint { codepoint: 0xE0020, name: "TAG SPACE", aliases: &[] },
        Codepoint { codepoint: 0xE0021, name: "TAG EXCLAMATION MARK", aliases: &[] },
        Codepoint { codepoint: 0xE0022, name: "TAG QUOTATION MARK", aliases: &[] },
        Codepoint { codepoint: 0xE0023, name: "TAG NUMBER SIGN", aliases: &[] },
        Codepoint { codepoint: 0xE0024, name: "TAG DOLLAR SIGN", aliases: &[] },
        Codepoint { codepoint: 0xE0025, name: "TAG PERCENT SIGN", aliases: &[] },
        Codepoint { codepoint: 0xE0026, name: "TAG AMPERSAND", aliases: &[] },
        Codepoint { codepoint: 0xE0027, name: "TAG APOSTROPHE", aliases: &[] },
        Codepoint { codepoint: 0xE0028, name: "TAG LEFT PARENTHESIS", aliases: &[] },
        Codepoint { codepoint: 0xE0029, name: "TAG RIGHT PARENTHESIS", aliases: &[] },
        Codepoint { codepoint: 0xE002A, name: "TAG ASTERISK", aliases: &[] },
        Codepoint { codepoint: 0xE002B, name: "TAG PLUS SIGN", aliases: &[] },
        Codepoint { codepoint: 0xE002C, name: "TAG COMMA", aliases: &[] },
        Codepoint { codepoint: 0xE002D, name: "TAG HYPHEN-MINUS", aliases: &[] },
        Codepoint { codepoint: 0xE002E, name: "TAG FULL STOP", aliases: &[] },
        Codepoint { codepoint: 0xE002F, name: "TAG SOLIDUS", aliases: &[] },
        Codepoint { codepoint: 0xE0030, name: "TAG DIGIT ZERO", aliases: &[] },
        Codepoint { codepoint: 0xE0031, name: "TAG DIGIT ONE", aliases: &[] },
        Codepoint { codepoint: 0xE0032, name: "TAG DIGIT TWO", aliases: &[] },
        Codepoint { codepoint: 0xE0033, name: "TAG DIGIT THREE", aliases: &[] },
        Codepoint { codepoint: 0xE0034, name: "TAG DIGIT FOUR", aliases: &[] },
        Codepoint { codepoint: 0xE0035, name: "TAG DIGIT FIVE", aliases: &[] },
        Codepoint { codepoint: 0xE0036, name: "TAG DIGIT SIX", aliases: &[] },
        Codepoint { codepoint: 0xE0037, name: "TAG DIGIT SEVEN", aliases: &[] },
        Codepoint { codepoint: 0xE0038, name: "TAG DIGIT EIGHT", aliases: &[] },
        Codepoint { codepoint: 0xE0039, name: "TAG DIGIT NINE", aliases: &[] },
        Codepoint { codepoint: 0xE003A, name: "TAG COLON", aliases: &[] },
        Codepoint { codepoint: 0xE003B, name: "TAG SEMICOLON", aliases: &[] },
        Codepoint { codepoint: 0xE003C, name: "TAG LESS-THAN SIGN", aliases: &[] },
        Codepoint { codepoint: 0xE003D, name: "TAG EQUALS SIGN", aliases: &[] },
        Codepoint { codepoint: 0xE003E, name: "TAG GREATER-THAN SIGN", aliases: &[] },
        Codepoint { codepoint: 0xE003F, name: "TAG QUESTION MARK", aliases: &[] },
        Codepoint { codepoint: 0xE0040, name: "TAG COMMERCIAL AT", aliases: &[] },
        Codepoint { codepoint: 0xE0041, name: "TAG LATIN CAPITAL LETTER A", aliases: &[] },
    ]
}

fn all_codepoints_857() -> (v: Vec<Codepoint>)
    ensures
        v@ == codepoint_table_857(),
{
    let v = vec![
        Codepoint { codepoint: 0x2FA1B, name: "CJK COMPATIBILITY IDEOGRAPH-2FA1B", aliases: &[] },
        Codepoint { codepoint: 0x2FA1C, name: "CJK COMPATIBILITY IDEOGRAPH-2FA1C", aliases: &[] },
        Codepoint { codepoint: 0x2FA1D, name: "CJK COMPATIBILITY IDEOGRAPH-2FA1D", aliases: &[] },
        Codepoint { codepoint: 0x30000, name: "<CJK Ideograph Extension G, First>", aliases: &[] },
        Codepoint { codepoint: 0x3134A, name: "<CJK Ideograph Extension G, Last>", aliases: &[] },
        Codepoint { codepoint: 0xE0001, name: "LANGUAGE TAG", aliases: &[] },
        Codepoint { codepoint: 0xE0020, name: "TAG SPACE", aliases: &[] },
        Codepoint { codepoint: 0xE0021, name: "TAG EXCLAMATION MARK", aliases: &[] },
        Codepoint { codepoint: 0xE0022, name: "TAG QUOTATION MARK", aliases: &[] },
        Codepoint { codepoint: 0xE0023, name: "TAG NUMBER SIGN", aliases: &[] },
        Codepoint { codepoint: 0xE0024, name: "TAG DOLLAR SIGN", aliases: &[] },
        Codepoint { codepoint: 0xE0025, name: "TAG PERCENT SIGN", aliases: &[] },
        Codepoint { codepoint: 0xE0026, name: "TAG AMPERSAND", aliases: &[] },
        Codepoint { codepoint: 0xE0027, name: "TAG APOSTROPHE", aliases: &[] },
        Codepoint { codepoint: 0xE0028, name: "TAG LEFT PARENTHESIS", aliases: &[] },
        Codepoint { codepoint: 0xE0029, name: "TAG RIGHT PARENTHESIS", aliases: &[] },
        Codepoint { codepoint: 0xE002A, name: "TAG ASTERISK", aliases: &[] },
        Codepoint { codepoint: 0xE002B, name: "TAG PLUS SIGN", aliases: &[] },
        Codepoint { codepoint: 0xE002C, name: "TAG COMMA", aliases: &[] },
        Codepoint { codepoint: 0xE002D, name: "TAG HYPHEN-MINUS", aliases: &[] },
        Codepoint { codepoint: 0xE002E, name: "TAG FULL STOP", aliases: &[] },
        Codepoint { codepoint: 0xE002F, name: "TAG SOLIDUS", aliases: &[] },
        Codepoint { codepoint: 0xE0030, name: "TAG DIGIT ZERO", aliases: &[] },
        Codepoint { codepoint: 0xE0031, name: "TAG DIGIT ONE", aliases: &[] },
        Codepoint { codepoint: 0xE0032, name: "TAG DIGIT TWO", aliases: &[] },
        Codepoint { codepoint: 0xE0033, name: "TAG DIGIT THREE", aliases: &[] },
        Codepoint { codepoint: 0xE0034, name: "TAG DIGIT FOUR", aliases: &[] },
        Codepoint { codepoint: 0xE0035, name: "TAG DIGIT FIVE", aliases: &[] },
        Codepoint { codepoint: 0xE0036, name: "TAG DIGIT SIX", aliases: &[] },
        Codepoint { codepoint: 0xE0037, name: "TAG DIGIT SEVEN", aliases: &[] },
        Codepoint { codepoint: 0xE0038, name: "TAG DIGIT EIGHT", aliases: &[] },
        Codepoint { codepoint: 0xE0039, name: "TAG DIGIT NINE", aliases: &[] },
        Codepoint { codepoint: 0xE003A, name: "TAG COLON", aliases: &[] },
        Codepoint { codepoint: 0xE003B, name: "TAG SEMICOLON", aliases: &[] },
        Codepoint { codepoint: 0xE003C, name: "TAG LESS-THAN SIGN", aliases: &[] },
        Codepoint { codepoint: 0xE003D, name: "TAG EQUALS SIGN", aliases: &[] },
        Codepoint { codepoint: 0xE003E, name: "TAG GREATER-THAN SIGN", aliases: &[] },
        Codepoint { codepoint: 0xE003F, name: "TAG QUESTION MARK", aliases: &[] },
        Codepoint { codepoint: 0xE0040, name: "TAG COMMERCIAL AT", aliases: &[] },
        Codepoint { codepoint: 0xE0041, name: "TAG LATIN CAPITAL LETTER A", aliases: &[] },
    ];
    assert(v@ =~= codepoint_table_857());
    v
}

pub open spec fn codepoint_table_858() -> Seq<Codepoint> {
    seq![
        Codepoint { codepoint: 0xE0042, name: "TAG LATIN CAPITAL LETTER B", aliases: &[] },
        Codepoint { codepoint: 0xE0043, name: "TAG LATIN CAPITAL LETTER C", aliases: &[] },
        Codepoint { codepoint: 0xE0044, name: "TAG LATIN CAPITAL LETTER D", aliases: &[] },
        Codepoint { codepoint: 0xE0045, name: "TAG LATIN CAPITAL LETTER E", aliases: &[] },
        Codepoint { codepoint: 0xE0046, name: "TAG LATIN CAPITAL LETTER F", aliases: &[] },
        Codepoint { codepoint: 0xE0047, name: "TAG LATIN CAPITAL LETTER G", aliases: &[] },
        Codepoint { codepoint: 0xE0048, name: "TAG LATIN CAPITAL LETTER H", aliases: &[] },
        Codepoint { codepoint: 0xE0049, name: "TAG LATIN CAPITAL LETTER I", aliases: &[] },
        Codepoint { codepoint: 0xE004A, name: "TAG LATIN CAPITAL LETTER J", aliases: &[] },
        Codepoint { codepoint: 0xE004B, name: "TAG LATIN CAPITAL LETTER K", aliases: &[] },
        Codepoint { codepoint: 0xE004C, name: "TAG LATIN CAPITAL LETTER L", aliases: &[] },
        Codepoint { codepoint: 0xE004D, name: "TAG LATIN CAPITAL LETTER M", aliases: &[] },
        Codepoint { codepoint: 0xE004E, name: "TAG LATIN CAPITAL LETTER N", aliases: &[] },
        Codepoint { codepoint: 0xE004F, name: "TAG LATIN CAPITAL LETTER O", aliases: &[] },
        Codepoint { codepoint: 0xE0050, name: "TAG LATIN CAPITAL LETTER P", aliases: &[] },
        Codepoint { codepoint: 0xE0051, name: "TAG LATIN CAPITAL LETTER Q", aliases: &[] },
        Codepoint { codepoint: 0xE0052, name: "TAG LATIN CAPITAL LETTER R", aliases: &[] },
        Codepoint { codepoint: 0xE0053, name: "TAG LATIN CAPITAL LETTER S", aliases: &[] },
        Codepoint { codepoint: 0xE0054, name: "TAG LATIN CAPITAL LETTER T", aliases: &[] },
        Codepoint { codepoint: 0xE0055, name: "TAG LATIN CAPITAL LETTER U", aliases: &[] },
        Codepoint { codepoint: 0xE0056, name: "TAG LATIN CAPITAL LETTER V", aliases: &[] },
        Codepoint { codepoint: 0xE0057, name: "TAG LATIN CAPITAL LETTER W", aliases: &[] },
        Codepoint { codepoint: 0xE0058, name: "TAG LATIN CAPITAL LETTER X", aliases: &[] },
        Codepoint { codepoint: 0xE0059, name: "TAG LATIN CAPITAL LETTER Y", aliases: &[] },
        Codepoint { codepoint: 0xE005A, name: "TAG LATIN CAPITAL LETTER Z", aliases: &[] },
        Codepoint { codepoint: 0xE005B, name: "TAG LEFT SQUARE BRACKET", aliases: &[] },
        Codepoint { codepoint: 0xE005C, name: "TAG REVERSE SOLIDUS", aliases: &[] },
        Codepoint { codepoint: 0xE005D, name: "TAG RIGHT SQUARE BRACKET", aliases: &[] },
        Codepoint { codepoint: 0xE005E, name: "TAG CIRCUMFLEX ACCENT", aliases: &[] },
        Codepoint { codepoint: 0xE005F, name: "TAG LOW LINE", aliases: &[] },
        Codepoint { codepoint: 0xE0060, name: "TAG GRAVE ACCENT", aliases: &[] },
        Codepoint { codepoint: 0xE0061, name: "TAG LATIN SMALL LETTER A", aliases: &[] },
        Codepoint { codepoint: 0xE0062, name: "TAG LATIN SMALL LETTER B", aliases: &[] },
        Codepoint { codepoint: 0xE0063, name: "TAG LATIN SMALL LETTER C", aliases: &[] },
        Codepoint { codepoint: 0xE0064, name: "TAG LATIN SMALL LETTER D", aliases: &[] },
        Codepoint { codepoint: 0xE0065, name: "TAG LATIN SMALL LETTER E", aliases: &[] },
        Codepoint { codepoint: 0xE0066, name: "TAG LATIN SMALL LETTER F", aliases: &[] },
        Codepoint { codepoint: 0xE0067, name: "TAG LATIN SMALL LETTER G", aliases: &[] },
        Codepoint { codepoint: 0xE0068, name: "TAG LATIN SMALL LETTER H", aliases: &[] },
        Codepoint { codepoint: 0xE0069, name: "TAG LATIN SMALL LETTER I", aliases: &[] },
    ]
}

fn all_codepoints_858() -> (v: Vec<Codepoint>)
    ensures
        v@ == codepoint_table_858(),
{
    let v = vec![
        Codepoint { codepoint: 0xE0042, name: "TAG LATIN CAPITAL LETTER B", aliases: &[] },
        Codepoint { codepoint: 0xE0043, name: "TAG LATIN CAPITAL LETTER C", aliases: &[] },
        Codepoint { codepoint: 0xE0044, name: "TAG LATIN CAPITAL LETTER D", aliases: &[] },
        Codepoint { codepoint: 0xE0045, name: "TAG LATIN CAPITAL LETTER E", aliases: &[] },
        Codepoint { codepoint: 0xE0046, name: "TAG LATIN CAPITAL LETTER F", aliases: &[] },
        Codepoint { codepoint: 0xE0047, name: "TAG LATIN CAPITAL LETTER G", aliases: &[] },
        Codepoint { codepoint: 0xE0048, name: "TAG LATIN CAPITAL LETTER H", aliases: &[] },
        Codepoint { codepoint: 0xE0049, name: "TAG LATIN CAPITAL LETTER I", aliases: &[] },
        Codepoint { codepoint: 0xE004A, name: "TAG LATIN CAPITAL LETTER J", aliases: &[] },
        Codepoint { codepoint: 0xE004B, name: "TAG LATIN CAPITAL LETTER K", aliases: &[] },
        Codepoint { codepoint: 0xE004C, name: "TAG LATIN CAPITAL LETTER L", aliases: &[] },
        Codepoint { codepoint: 0xE004D, name: "TAG LATIN CAPITAL LETTER M", aliases: &[] },
        Codepoint { codepoint: 0xE004E, name: "TAG LATIN CAPITAL LETTER N", aliases: &[] },
        Codepoint { codepoint: 0xE004F, name: "TAG LATIN CAPITAL LETTER O", aliases: &[] },
        Codepoint { codepoint: 0xE0050, name: "TAG LATIN CAPITAL LETTER P", aliases: &[] },
        Codepoint { codepoint: 0xE0051, name: "TAG LATIN CAPITAL LETTER Q", aliases: &[] },
        Codepoint { codepoint: 0xE0052, name: "TAG LATIN CAPITAL LETTER R", aliases: &[] },
        Codepoint { codepoint: 0xE0053, name: "TAG LATIN CAPITAL LETTER S", aliases: &[] },
        Codepoint { codepoint: 0xE0054, name: "TAG LATIN CAPITAL LETTER T", aliases: &[] },
        Codepoint { codepoint: 0xE0055, name: "TAG LATIN CAPITAL LETTER U", aliases: &[] },
        Codepoint { codepoint: 0xE0056, name: "TAG LATIN CAPITAL LETTER V", aliases: &[] },
        Codepoint { codepoint: 0xE0057, name: "TAG LATIN CAPITAL LETTER W", aliases: &[] },
        Codepoint { codepoint: 0xE0058, name: "TAG LATIN CAPITAL LETTER X", aliases: &[] },
        Codepoint { codepoint: 0xE0059, name: "TAG LATIN CAPITAL LETTER Y", aliases: &[] },
        Codepoint { codepoint: 0xE005A, name: "TAG LATIN CAPITAL LETTER Z", aliases: &[] },
        Codepoint { codepoint: 0xE005B, name: "TAG LEFT SQUARE BRACKET", aliases: &[] },
        Codepoint { codepoint: 0xE005C, name: "TAG REVERSE SOLIDUS", aliases: &[] },
        Codepoint { codepoint: 0xE005D, name: "TAG RIGHT SQUARE BRACKET", aliases: &[] },
        Codepoint { codepoint: 0xE005E, name: "TAG CIRCUMFLEX ACCENT", aliases: &[] },
        Codepoint { codepoint: 0xE005F, name: "TAG LOW LINE", aliases: &[] },
        Codepoint { codepoint: 0xE0060, name: "TAG GRAVE ACCENT", aliases: &[] },
        Codepoint { codepoint: 0xE0061, name: "TAG LATIN SMALL LETTER A", aliases: &[] },
        Codepoint { codepoint: 0xE0062, name: "TAG LATIN SMALL LETTER B", aliases: &[] },
        Codepoint { codepoint: 0xE0063, name: "TAG LATIN SMALL LETTER C", aliases: &[] },
        Codepoint { codepoint: 0xE0064, name: "TAG LATIN SMALL LETTER D", aliases: &[] },
        Codepoint { codepoint: 0xE0065, name: "TAG LATIN SMALL LETTER E", aliases: &[] },
        Codepoint { codepoint: 0xE0066, name: "TAG LATIN SMALL LETTER F", aliases: &[] },
        Codepoint { codepoint: 0xE0067, name: "TAG LATIN SMALL LETTER G", aliases: &[] },
        Codepoint { codepoint: 0xE0068, name: "TAG LATIN SMALL LETTER H", aliases: &[] },
        Codepoint { codepoint: 0xE0069, name: "TAG LATIN SMALL LETTER I", aliases: &[] },
    ];
    assert(v@ =~= codepoint_table_858());
    v
}

pub open spec fn codepoint_table_859() -> Seq<Codepoint> {
    seq![
        Codepoint { codepoint: 0xE006A, name: "TAG LATIN SMALL LETTER J", aliases: &[] },
        Codepoint { codepoint: 0xE006B, name: "TAG LATIN SMALL LETTER K", aliases: &[] },
        Codepoint { codepoint: 0xE006C, name: "TAG LATIN SMALL LETTER L", aliases: &[] },
        Codepoint { codepoint: 0xE006D, name: "TAG LATIN SMALL LETTER M", aliases: &[] },
        Codepoint { codepoint: 0xE006E, name: "TAG LATIN SMALL LETTER N", aliases: &[] },
        Codepoint { codepoint: 0xE006F, name: "TAG LATIN SMALL LETTER O", aliases: &[] },
        Codepoint { codepoint: 0xE0070, name: "TAG LATIN SMALL LETTER P", aliases: &[] },
        Codepoint { codepoint: 0xE0071, name: "TAG LATIN SMALL LETTER Q", aliases: &[] },
        Codepoint { codepoint: 0xE0072, name: "TAG LATIN SMALL LETTER R", aliases: &[] },
        Codepoint { codepoint: 0xE0073, name: "TAG LATIN SMALL LETTER S", aliases: &[] },
        Codepoint { codepoint: 0xE0074, name: "TAG LATIN SMALL LETTER T", aliases: &[] },
        Codepoint { codepoint: 0xE0075, name: "TAG LATIN SMALL LETTER U", aliases: &[] },
        Codepoint { codepoint: 0xE0076, name: "TAG LATIN SMALL LETTER V", aliases: &[] },
        Codepoint { codepoint: 0xE0077, name: "TAG LATIN SMALL LETTER W", aliases: &[] },
        Codepoint { codepoint: 0xE0078, name: "TAG LATIN SMALL LETTER X", aliases: &[] },
        Codepoint { codepoint: 0xE0079, name: "TAG LATIN SMALL LETTER Y", aliases: &[] },
        Codepoint { codepoint: 0xE007A, name: "TAG LATIN SMALL LETTER Z", aliases: &[] },
        Codepoint { codepoint: 0xE007B, name: "TAG LEFT CURLY BRACKET", aliases: &[] },
        Codepoint { codepoint: 0xE007C, name: "TAG VERTICAL LINE", aliases: &[] },
        Codepoint { codepoint: 0xE007D, name: "TAG RIGHT CURLY BRACKET", aliases: &[] },
        Codepoint { codepoint: 0xE007E, name: "TAG TILDE", aliases: &[] },
        Codepoint { codepoint: 0xE007F, name: "CANCEL TAG", aliases: &[] },
        Codepoint { codepoint: 0xE0100, name: "VARIATION SELECTOR-17", aliases: &[] },
        Codepoint { codepoint: 0xE0101, name: "VARIATION SELECTOR-18", aliases: &[] },
        Codepoint { codepoint: 0xE0102, name: "VARIATION SELECTOR-19", aliases: &[] },
        Codepoint { codepoint: 0xE0103, name: "VARIATION SELECTOR-20", aliases: &[] },
        Codepoint { codepoint: 0xE0104, name: "VARIATION SELECTOR-21", aliases: &[] },
        Codepoint { codepoint: 0xE0105, name: "VARIATION SELECTOR-22", aliases: &[] },
        Codepoint { codepoint: 0xE0106, name: "VARIATION SELECTOR-23", aliases: &[] },
        Codepoint { codepoint: 0xE0107, name: "VARIATION SELECTOR-24", aliases: &[] },
        Codepoint { codepoint: 0xE0108, name: "VARIATION SELECTOR-25", aliases: &[] },
        Codepoint { codepoint: 0xE0109, name: "VARIATION SELECTOR-26", aliases: &[] },
        Codepoint { codepoint: 0xE010A, name: "VARIATION SELECTOR-27", aliases: &[] },
        Codepoint { codepoint: 0xE010B, name: "VARIATION SELECTOR-28", aliases: &[] },
        Codepoint { codepoint: 0xE010C, name: "VARIATION SELECTOR-29", aliases: &[] },
        Codepoint { codepoint: 0xE010D, name: "VARIATION SELECTOR-30", aliases: &[] },
        Codepoint { codepoint: 0xE010E, name: "VARIATION SELECTOR-31", aliases: &[] },
        Codepoint { codepoint: 0xE010F, name: "VARIATION SELECTOR-32", aliases: &[] },
        Codepoint { codepoint: 0xE0110, name: "VARIATION SELECTOR-33", aliases: &[] },
        Codepoint { codepoint: 0xE0111, name: "VARIATION SELECTOR-34", aliases: &[] },
    ]
}

fn all_codepoints_859() -> (v: Vec<Codepoint>)
    ensures
        v@ == codepoint_table_859(),
{
    let v = vec![
        Codepoint { codepoint: 0xE006A, name: "TAG LATIN SMALL LETTER J", aliases: &[] },
        Codepoint { codepoint: 0xE006B, name: "TAG LATIN SMALL LETTER K", aliases: &[] },
        Codepoint { codepoint: 0xE006C, name: "TAG LATIN SMALL LETTER L", aliases: &[] },
        Codepoint { codepoint: 0xE006D, name: "TAG LATIN SMALL LETTER M", aliases: &[] },
        Codepoint { codepoint: 0xE006E, name: "TAG LATIN SMALL LETTER N", aliases: &[] },
        Codepoint { codepoint: 0xE006F, name: "TAG LATIN SMALL LETTER O", aliases: &[] },
        Codepoint { codepoint: 0xE0070, name: "TAG LATIN SMALL LETTER P", aliases: &[] },
        Codepoint { codepoint: 0xE0071, name: "TAG LATIN SMALL LETTER Q", aliases: &[] },
        Codepoint { codepoint: 0xE0072, name: "TAG LATIN SMALL LETTER R", aliases: &[] },
        Codepoint { codepoint: 0xE0073, name: "TAG LATIN SMALL LETTER S", aliases: &[] },
        Codepoint { codepoint: 0xE0074, name: "TAG LATIN SMALL LETTER T", aliases: &[] },
        Codepoint { codepoint: 0xE0075, name: "TAG LATIN SMALL LETTER U", aliases: &[] },
        Codepoint { codepoint: 0xE0076, name: "TAG LATIN SMALL LETTER V", aliases: &[] },
        Codepoint { codepoint: 0xE0077, name: "TAG LATIN SMALL LETTER W", aliases: &[] },
        Codepoint { codepoint: 0xE0078, name: "TAG LATIN SMALL LETTER X", aliases: &[] },
        Codepoint { codepoint: 0xE0079, name: "TAG LATIN SMALL LETTER Y", aliases: &[] },
        Codepoint { codepoint: 0xE007A, name: "TAG LATIN SMALL LETTER Z", aliases: &[] },
        Codepoint { codepoint: 0xE007B, name: "TAG LEFT CURLY BRACKET", aliases: &[] },
        Codepoint { codepoint: 0xE007C, name: "TAG VERTICAL LINE", aliases: &[] },
        Codepoint { codepoint: 0xE007D, name: "TAG RIGHT CURLY BRACKET", aliases: &[] },
        Codepoint { codepoint: 0xE007E, name: "TAG TILDE", aliases: &[] },
        Codepoint { codepoint: 0xE007F, name: "CANCEL TAG", aliases: &[] },
        Codepoint { codepoint: 0xE0100, name: "VARIATION SELECTOR-17", aliases: &[] },
        Codepoint { codepoint: 0xE0101, name: "VARIATION SELECTOR-18", aliases: &[] },
        Codepoint { codepoint: 0xE0102, name: "VARIATION SELECTOR-19", aliases: &[] },
        Codepoint { codepoint: 0xE0103, name: "VARIATION SELECTOR-20", aliases: &[] },
        Codepoint { codepoint: 0xE0104, name: "VARIATION SELECTOR-21", aliases: &[] },
        Codepoint { codepoint: 0xE0105, name: "VARIATION SELECTOR-22", aliases: &[] },
        Codepoint { codepoint: 0xE0106, name: "VARIATION SELECTOR-23", aliases: &[] },
        Codepoint { codepoint: 0xE0107, name: "VARIATION SELECTOR-24", aliases: &[] },
        Codepoint { codepoint: 0xE0108, name: "VARIATION SELECTOR-25", aliases: &[] },
        Codepoint { codepoint: 0xE0109, name: "VARIATION SELECTOR-26", aliases: &[] },
        Codepoint { codepoint: 0xE010A, name: "VARIATION SELECTOR-27", aliases: &[] },
        Codepoint { codepoint: 0xE010B, name: "VARIATION SELECTOR-28", aliases: &[] },
        Codepoint { codepoint: 0xE010C, name: "VARIATION SELECTOR-29", aliases: &[] },
        Codepoint { codepoint: 0xE010D, name: "VARIATION SELECTOR-30", aliases: &[] },
        Codepoint { codepoint: 0xE010E, name: "VARIATION SELECTOR-31", aliases: &[] },
        Codepoint { codepoint: 0xE010F, name: "VARIATION SELECTOR-32", aliases: &[] },
        Codepoint { codepoint: 0xE0110, name: "VARIATION SELECTOR-33", aliases: &[] },
        Codepoint { codepoint: 0xE0111, name: "VARIATION SELECTOR-34", aliases: &[] },
    ];
    assert(v@ =~= codepoint_table_859());
    v
}

/// The entries from position 33600 of the table, 800 at most.
pub open spec fn codepoint_group_42() -> Seq<Codepoint> {
    codepoint_table_840() + codepoint_table_841() + codepoint_table_842() + codepoint_table_843() + codepoint_table_844() + codepoint_table_845() + codepoint_table_846() + codepoint_table_847() + codepoint_table_848() + codepoint_table_849() + codepoint_table_850() + codepoint_table_851() + codepoint_table_852() + codepoint_table_853() + codepoint_table_854() + codepoint_table_855() + codepoint_table_856() + codepoint_table_857() + codepoint_table_858() + codepoint_table_859()
}

pub fn all_codepoints_group_42() -> (v: Vec<Codepoint>)
    ensures
        v@ == codepoint_group_42(),
{
    let mut v = all_codepoints_840();
    let mut part = all_codepoints_841();
    v.append(&mut part);
    let mut part = all_codepoints_842();
    v.append(&mut part);
    let mut part = all_codepoints_843();
    v.append(&mut part);
    let mut part = all_codepoints_844();
    v.append(&mut part);
    let mut part = all_codepoints_845();
    v.append(&mut part);
    let mut part = all_codepoints_846();
    v.append(&mut part);
    let mut part = all_codepoints_847();
    v.append(&mut part);
    let mut part = all_codepoints_848();
    v.append(&mut part);
    let mut part = all_codepoints_849();
    v.append(&mut part);
    let mut part = all_codepoints_850();
    v.append(&mut part);
    let mut part = all_codepoints_851();
    v.append(&mut part);
    let mut part = all_codepoints_852();
    v.append(&mut part);
    let mut part = all_codepoints_853();
    v.append(&mut part);
    let mut part = all_codepoints_854();
    v.append(&mut part);
    let mut part = all_codepoints_855();
    v.append(&mut part);
    let mut part = all_codepoints_856();
    v.append(&mut part);
    let mut part = all_codepoints_857();
    v.append(&mut part);
    let mut part = all_codepoints_858();
    v.append(&mut part);
    let mut part = all_codepoints_859();
    v.append(&mut part);
    v
}

pub open spec fn codepoint_table_860() -> Seq<Codepoint> {
    seq![
        Codepoint { codepoint: 0xE0112, name: "VARIATION SELECTOR-35", aliases: &[] },
        Codepoint { codepoint: 0xE0113, name: "VARIATION SELECTOR-36", aliases: &[] },
        Codepoint { codepoint: 0xE0114, name: "VARIATION SELECTOR-37", aliases: &[] },
        Codepoint { codepoint: 0xE0115, name: "VARIATION SELECTOR-38", aliases: &[] },
        Codepoint { codepoint: 0xE0116, name: "VARIATION SELECTOR-39", aliases: &[] },
        Codepoint { codepoint: 0xE0117, name: "VARIATION SELECTOR-40", aliases: &[] },
        Codepoint { codepoint: 0xE0118, name: "VARIATION SELECTOR-41", aliases: &[] },
        Codepoint { codepoint: 0xE0119, name: "VARIATION SELECTOR-42", aliases: &[] },
        Codepoint { codepoint: 0xE011A, name: "VARIATION SELECTOR-43", aliases: &[] },
        Codepoint { codepoint: 0xE011B, name: "VARIATION SELECTOR-44", aliases: &[] },
        Codepoint { codepoint: 0xE011C, name: "VARIATION SELECTOR-45", aliases: &[] },
        Codepoint { codepoint: 0xE011D, name: "VARIATION SELECTOR-46", aliases: &[] },
        Codepoint { codepoint: 0xE011E, name: "VARIATION SELECTOR-47", aliases: &[] },
        Codepoint { codepoint: 0xE011F, name: "VARIATION SELECTOR-48", aliases: &[] },
        Codepoint { codepoint: 0xE0120, name: "VARIATION SELECTOR-49", aliases: &[] },
        Codepoint { codepoint: 0xE0121, name: "VARIATION SELECTOR-50", aliases: &[] },
        Codepoint { codepoint: 0xE0122, name: "VARIATION SELECTOR-51", aliases: &[] },
        Codepoint { codepoint: 0xE0123, name: "VARIATION SELECTOR-52", aliases: &[] },
        Codepoint { codepoint: 0xE0124, name: "VARIATION SELECTOR-53", aliases: &[] },
        Codepoint { codepoint: 0xE0125, name: "VARIATION SELECTOR-54", aliases: &[] },
        Codepoint { codepoint: 0xE0126, name: "VARIATION SELECTOR-55", aliases: &[] },
        Codepoint { codepoint: 0xE0127, name: "VARIATION SELECTOR-56", aliases: &[] },
        Codepoint { codepoint: 0xE0128, name: "VARIATION SELECTOR-57", aliases: &[] },
        Codepoint { codepoint: 0xE0129, name: "VARIATION SELECTOR-58", aliases: &[] },
        Codepoint { codepoint: 0xE012A, name: "VARIATION SELECTOR-59", aliases: &[] },
        Codepoint { codepoint: 0xE012B, name: "VARIATION SELECTOR-60", aliases: &[] },
        Codepoint { codepoint: 0xE012C, name: "VARIATION SELECTOR-61", aliases: &[] },
        Codepoint { codepoint: 0xE012D, name: "VARIATION SELECTOR-62", aliases: &[] },
        Codepoint { codepoint: 0xE012E, name: "VARIATION SELECTOR-63", aliases: &[] },
        Codepoint { codepoint: 0xE012F, name: "VARIATION SELECTOR-64", aliases: &[] },
        Codepoint { codepoint: 0xE0130, name: "VARIATION SELECTOR-65", aliases: &[] },
        Codepoint { codepoint: 0xE0131, name: "VARIATION SELECTOR-66", aliases: &[] },
        Codepoint { codepoint: 0xE0132, name: "VARIATION SELECTOR-67", aliases: &[] },
        Codepoint { codepoint: 0xE0133, name: "VARIATION SELECTOR-68", aliases: &[] },
        Codepoint { codepoint: 0xE0134, name: "VARIATION SELECTOR-69", aliases: &[] },
        Codepoint { codepoint: 0xE0135, name: "VARIATION SELECTOR-70", aliases: &[] },
        Codepoint { codepoint: 0xE0136, name: "VARIATION SELECTOR-71", aliases: &[] },
        Codepoint { codepoint: 0xE0137, name: "VARIATION SELECTOR-72", aliases: &[] },
        Codepoint { codepoint: 0xE0138, name: "VARIATION SELECTOR-73", aliases: &[] },
        Codepoint { codepoint: 0xE0139, name: "VARIATION SELECTOR-74", aliases: &[] },
    ]
}

fn all_codepoints_860() -> (v: Vec<Codepoint>)
    ensures
        v@ == codepoint_table_860(),
{
    let v = vec![
        Codepoint { codepoint: 0xE0112, name: "VARIATION SELECTOR-35", aliases: &[] },
        Codepoint { codepoint: 0xE0113, name: "VARIATION SELECTOR-36", aliases: &[] },
        Codepoint { codepoint: 0xE0114, name: "VARIATION SELECTOR-37", aliases: &[] },
        Codepoint { codepoint: 0xE0115, name: "VARIATION SELECTOR-38", aliases: &[] },
        Codepoint { codepoint: 0xE0116, name: "VARIATION SELECTOR-39", aliases: &[] },
        Codepoint { codepoint: 0xE0117, name: "VARIATION SELECTOR-40", aliases: &[] },
        Codepoint { codepoint: 0xE0118, name: "VARIATION SELECTOR-41", aliases: &[] },
        Codepoint { codepoint: 0xE0119, name: "VARIATION SELECTOR-42", aliases: &[] },
        Codepoint { codepoint: 0xE011A, name: "VARIATION SELECTOR-43", aliases: &[] },
        Codepoint { codepoint: 0xE011B, name: "VARIATION SELECTOR-44", aliases: &[] },
        Codepoint { codepoint: 0xE011C, name: "VARIATION SELECTOR-45", aliases: &[] },
        Codepoint { codepoint: 0xE011D, name: "VARIATION SELECTOR-46", aliases: &[] },
        Codepoint { codepoint: 0xE011E, name: "VARIATION SELECTOR-47", aliases: &[] },
        Codepoint { codepoint: 0xE011F, name: "VARIATION SELECTOR-48", aliases: &[] },
        Codepoint { codepoint: 0xE0120, name: "VARIATION SELECTOR-49", aliases: &[] },
        Codepoint { codepoint: 0xE0121, name: "VARIATION SELECTOR-50", aliases: &[] },
        Codepoint { codepoint: 0xE0122, name: "VARIATION SELECTOR-51", aliases: &[] },
        Codepoint { codepoint: 0xE0123, name: "VARIATION SELECTOR-52", aliases: &[] },
        Codepoint { codepoint: 0xE0124, name: "VARIATION SELECTOR-53", aliases: &[] },
        Codepoint { codepoint: 0xE0125, name: "VARIATION SELECTOR-54", aliases: &[] },
        Codepoint { codepoint: 0xE0126, name: "VARIATION SELECTOR-55", aliases: &[] },
        Codepoint { codepoint: 0xE0127, name: "VARIATION SELECTOR-56", aliases: &[] },
        Codepoint { codepoint: 0xE0128, name: "VARIATION SELECTOR-57", aliases: &[] },
        Codepoint { codepoint: 0xE0129, name: "VARIATION SELECTOR-58", aliases: &[] },
        Codepoint { codepoint: 0xE012A, name: "VARIATION SELECTOR-59", aliases: &[] },
        Codepoint { codepoint: 0xE012B, name: "VARIATION SELECTOR-60", aliases: &[] },
        Codepoint { codepoint: 0xE012C, name: "VARIATION SELECTOR-61", aliases: &[] },
        Codepoint { codepoint: 0xE012D, name: "VARIATION SELECTOR-62", aliases: &[] },
        Codepoint { codepoint: 0xE012E, name: "VARIATION SELECTOR-63", aliases: &[] },
        Codepoint { codepoint: 0xE012F, name: "VARIATION SELECTOR-64", aliases: &[] },
        Codepoint { codepoint: 0xE0130, name: "VARIATION SELECTOR-65", aliases: &[] },
        Codepoint { codepoint: 0xE0131, name: "VARIATION SELECTOR-66", aliases: &[] },
        Codepoint { codepoint: 0xE0132, name: "VARIATION SELECTOR-67", aliases: &[] },
        Codepoint { codepoint: 0xE0133, name: "VARIATION SELECTOR-68", aliases: &[] },
        Codepoint { codepoint: 0xE0134, name: "VARIATION SELECTOR-69", aliases: &[] },
        Codepoint { codepoint: 0xE0135, name: "VARIATION SELECTOR-70", aliases: &[] },
        Codepoint { codepoint: 0xE0136, name: "VARIATION SELECTOR-71", aliases: &[] },
        Codepoint { codepoint: 0xE0137, name: "VARIATION SELECTOR-72", aliases: &[] },
        Codepoint { codepoint: 0xE0138, name: "VARIATION SELECTOR-73", aliases: &[] },
        Codepoint { codepoint: 0xE0139, name: "VARIATION SELECTOR-74", aliases: &[] },
    ];
    assert(v@ =~= codepoint_table_860());
    v
}

pub open spec fn codepoint_table_861() -> Seq<Codepoint> {
    seq![
        Codepoint { codepoint: 0xE013A, name: "VARIATION SELECTOR-75", aliases: &[] },
        Codepoint { codepoint: 0xE013B, name: "VARIATION SELECTOR-76", aliases: &[] },
        Codepoint { codepoint: 0xE013C, name: "VARIATION SELECTOR-77", aliases: &[] },
        Codepoint { codepoint: 0xE013D, name: "VARIATION SELECTOR-78", aliases: &[] },
        Codepoint { codepoint: 0xE013E, name: "VARIATION SELECTOR-79", aliases: &[] },
        Codepoint { codepoint: 0xE013F, name: "VARIATION SELECTOR-80", aliases: &[] },
        Codepoint { codepoint: 0xE0140, name: "VARIATION SELECTOR-81", aliases: &[] },
        Codepoint { codepoint: 0xE0141, name: "VARIATION SELECTOR-82", aliases: &[] },
        Codepoint { codepoint: 0xE0142, name: "VARIATION SELECTOR-83", aliases: &[] },
        Codepoint { codepoint: 0xE0143, name: "VARIATION SELECTOR-84", aliases: &[] },
        Codepoint { codepoint: 0xE0144, name: "VARIATION SELECTOR-85", aliases: &[] },
        Codepoint { codepoint: 0xE0145, name: "VARIATION SELECTOR-86", aliases: &[] },
        Codepoint { codepoint: 0xE0146, name: "VARIATION SELECTOR-87", aliases: &[] },
        Codepoint { codepoint: 0xE0147, name: "VARIATION SELECTOR-88", aliases: &[] },
        Codepoint { codepoint: 0xE0148, name: "VARIATION SELECTOR-89", aliases: &[] },
        Codepoint { codepoint: 0xE0149, name: "VARIATION SELECTOR-90", aliases: &[] },
        Codepoint { codepoint: 0xE014A, name: "VARIATION SELECTOR-91", aliases: &[] },
        Codepoint { codepoint: 0xE014B, name: "VARIATION SELECTOR-92", aliases: &[] },
        Codepoint { codepoint: 0xE014C, name: "VARIATION SELECTOR-93", aliases: &[] },
        Codepoint { codepoint: 0xE014D, name: "VARIATION SELECTOR-94", aliases: &[] },
        Codepoint { codepoint: 0xE014E, name: "VARIATION SELECTOR-95", aliases: &[] },
        Codepoint { codepoint: 0xE014F, name: "VARIATION SELECTOR-96", aliases: &[] },
        Codepoint { codepoint: 0xE0150, name: "VARIATION SELECTOR-97", aliases: &[] },
        Codepoint { codepoint: 0xE0151, name: "VARIATION SELECTOR-98", aliases: &[] },
        Codepoint { codepoint: 0xE0152, name: "VARIATION SELECTOR-99", aliases: &[] },
        Codepoint { codepoint: 0xE0153, name: "VARIATION SELECTOR-100", aliases: &[] },
        Codepoint { codepoint: 0xE0154, name: "VARIATION SELECTOR-101", aliases: &[] },
        Codepoint { codepoint: 0xE0155, name: "VARIATION SELECTOR-102", aliases: &[] },
        Codepoint { codepoint: 0xE0156, name: "VARIATION SELECTOR-103", aliases: &[] },
        Codepoint { codepoint: 0xE0157, name: "VARIATION SELECTOR-104", aliases: &[] },
        Codepoint { codepoint: 0xE0158, name: "VARIATION SELECTOR-105", aliases: &[] },
        Codepoint { codepoint: 0xE0159, name: "VARIATION SELECTOR-106", aliases: &[] },
        Codepoint { codepoint: 0xE015A, name: "VARIATION SELECTOR-107", aliases: &[] },
        Codepoint { codepoint: 0xE015B, name: "VARIATION SELECTOR-108", aliases: &[] },
        Codepoint { codepoint: 0xE015C, name: "VARIATION SELECTOR-109", aliases: &[] },
        Codepoint { codepoint: 0xE015D, name: "VARIATION SELECTOR-110", aliases: &[] },
        Codepoint { codepoint: 0xE015E, name: "VARIATION SELECTOR-111", aliases: &[] },
        Codepoint { codepoint: 0xE015F, name: "VARIATION SELECTOR-112", aliases: &[] },
        Codepoint { codepoint: 0xE0160, name: "VARIATION SELECTOR-113", aliases: &[] },
        Codepoint { codepoint: 0xE0161, name: "VARIATION SELECTOR-114", aliases: &[] },
    ]
}

fn all_codepoints_861() -> (v: Vec<Codepoint>)
    ensures
        v@ == codepoint_table_861(),
{
    let v = vec![
        Codepoint { codepoint: 0xE013A, name: "VARIATION SELECTOR-75", aliases: &[] },
        Codepoint { codepoint: 0xE013B, name: "VARIATION SELECTOR-76", aliases: &[] },
        Codepoint { codepoint: 0xE013C, name: "VARIATION SELECTOR-77", aliases: &[] },
        Codepoint { codepoint: 0xE013D, name: "VARIATION SELECTOR-78", aliases: &[] },
        Codepoint { codepoint: 0xE013E, name: "VARIATION SELECTOR-79", aliases: &[] },
        Codepoint { codepoint: 0xE013F, name: "VARIATION SELECTOR-80", aliases: &[] },
        Codepoint { codepoint: 0xE0140, name: "VARIATION SELECTOR-81", aliases: &[] },
        Codepoint { codepoint: 0xE0141, name: "VARIATION SELECTOR-82", aliases: &[] },
        Codepoint { codepoint: 0xE0142, name: "VARIATION SELECTOR-83", aliases: &[] },
        Codepoint { codepoint: 0xE0143, name: "VARIATION SELECTOR-84", aliases: &[] },
        Codepoint { codepoint: 0xE0144, name: "VARIATION SELECTOR-85", aliases: &[] },
        Codepoint { codepoint: 0xE0145, name: "VARIATION SELECTOR-86", aliases: &[] },
        Codepoint { codepoint: 0xE0146, name: "VARIATION SELECTOR-87", aliases: &[] },
        Codepoint { codepoint: 0xE0147, name: "VARIATION SELECTOR-88", aliases: &[] },
        Codepoint { codepoint: 0xE0148, name: "VARIATION SELECTOR-89", aliases: &[] },
        Codepoint { codepoint: 0xE0149, name: "VARIATION SELECTOR-90", aliases: &[] },
        Codepoint { codepoint: 0xE014A, name: "VARIATION SELECTOR-91", aliases: &[] },
        Codepoint { codepoint: 0xE014B, name: "VARIATION SELECTOR-92", aliases: &[] },
        Codepoint { codepoint: 0xE014C, name: "VARIATION SELECTOR-93", aliases: &[] },
        Codepoint { codepoint: 0xE014D, name: "VARIATION SELECTOR-94", aliases: &[] },
        Codepoint { codepoint: 0xE014E, name: "VARIATION SELECTOR-95", aliases: &[] },
        Codepoint { codepoint: 0xE014F, name: "VARIATION SELECTOR-96", aliases: &[] },
        Codepoint { codepoint: 0xE0150, name: "VARIATION SELECTOR-97", aliases: &[] },
        Codepoint { codepoint: 0xE0151, name: "VARIATION SELECTOR-98", aliases: &[] },
        Codepoint { codepoint: 0xE0152, name: "VARIATION SELECTOR-99", aliases: &[] },
        Codepoint { codepoint: 0xE0153, name: "VARIATION SELECTOR-100", aliases: &[] },
        Codepoint { codepoint: 0xE0154, name: "VARIATION SELECTOR-101", aliases: &[] },
        Codepoint { codepoint: 0xE0155, name: "VARIATION SELECTOR-102", aliases: &[] },
        Codepoint { codepoint: 0xE0156, name: "VARIATION SELECTOR-103", aliases: &[] },
        Codepoint { codepoint: 0xE0157, name: "VARIATION SELECTOR-104", aliases: &[] },
        Codepoint { codepoint: 0xE0158, name: "VARIATION SELECTOR-105", aliases: &[] },
        Codepoint { codepoint: 0xE0159, name: "VARIATION SELECTOR-106", aliases: &[] },
        Codepoint { codepoint: 0xE015A, name: "VARIATION SELECTOR-107", aliases: &[] },
        Codepoint { codepoint: 0xE015B, name: "VARIATION SELECTOR-108", aliases: &[] },
        Codepoint { codepoint: 0xE015C, name: "VARIATION SELECTOR-109", aliases: &[] },
        Codepoint { codepoint: 0xE015D, name: "VARIATION SELECTOR-110", aliases: &[] },
        Codepoint { codepoint: 0xE015E, name: "VARIATION SELECTOR-111", aliases: &[] },
        Codepoint { codepoint: 0xE015F, name: "VARIATION SELECTOR-112", aliases: &[] },
        Codepoint { codepoint: 0xE0160, name: "VARIATION SELECTOR-113", aliases: &[] },
        Codepoint { codepoint: 0xE0161, name: "VARIATION SELECTOR-114", aliases: &[] },
    ];
    assert(v@ =~= codepoint_table_861());
    v
}

pub open spec fn codepoint_table_862() -> Seq<Codepoint> {
    seq![
        Codepoint { codepoint: 0xE0162, name: "VARIATION SELECTOR-115", aliases: &[] },
        Codepoint { codepoint: 0xE0163, name: "VARIATION SELECTOR-116", aliases: &[] },
        Codepoint { codepoint: 0xE0164, name: "VARIATION SELECTOR-117", aliases: &[] },
        Codepoint { codepoint: 0xE0165, name: "VARIATION SELECTOR-118", aliases: &[] },
        Codepoint { codepoint: 0xE0166, name: "VARIATION SELECTOR-119", aliases: &[] },
        Codepoint { codepoint: 0xE0167, name: "VARIATION SELECTOR-120", aliases: &[] },
        Codepoint { codepoint: 0xE0168, name: "VARIATION SELECTOR-121", aliases: &[] },
        Codepoint { codepoint: 0xE0169, name: "VARIATION SELECTOR-122", aliases: &[] },
        Codepoint { codepoint: 0xE016A, name: "VARIATION SELECTOR-123", aliases: &[] },
        Codepoint { codepoint: 0xE016B, name: "VARIATION SELECTOR-124", aliases: &[] },
        Codepoint { codepoint: 0xE016C, name: "VARIATION SELECTOR-125", aliases: &[] },
        Codepoint { codepoint: 0xE016D, name: "VARIATION SELECTOR-126", aliases: &[] },
        Codepoint { codepoint: 0xE016E, name: "VARIATION SELECTOR-127", aliases: &[] },
        Codepoint { codepoint: 0xE016F, name: "VARIATION SELECTOR-128", aliases: &[] },
        Codepoint { codepoint: 0xE0170, name: "VARIATION SELECTOR-129", aliases: &[] },
        Codepoint { codepoint: 0xE0171, name: "VARIATION SELECTOR-130", aliases: &[] },
        Codepoint { codepoint: 0xE0172, name: "VARIATION SELECTOR-131", aliases: &[] },
        Codepoint { codepoint: 0xE0173, name: "VARIATION SELECTOR-132", aliases: &[] },
        Codepoint { codepoint: 0xE0174, name: "VARIATION SELECTOR-133", aliases: &[] },
        Codepoint { codepoint: 0xE0175, name: "VARIATION SELECTOR-134", aliases: &[] },
        Codepoint { codepoint: 0xE0176, name: "VARIATION SELECTOR-135", aliases: &[] },
        Codepoint { codepoint: 0xE0177, name: "VARIATION SELECTOR-136", aliases: &[] },
        Codepoint { codepoint: 0xE0178, name: "VARIATION SELECTOR-137", aliases: &[] },
        Codepoint { codepoint: 0xE0179, name: "VARIATION SELECTOR-138", aliases: &[] },
        Codepoint { codepoint: 0xE017A, name: "VARIATION SELECTOR-139", aliases: &[] },
        Codepoint { codepoint: 0xE017B, name: "VARIATION SELECTOR-140", aliases: &[] },
        Codepoint { codepoint: 0xE017C, name: "VARIATION SELECTOR-141", aliases: &[] },
        Codepoint { codepoint: 0xE017D, name: "VARIATION SELECTOR-142", aliases: &[] },
        Codepoint { codepoint: 0xE017E, name: "VARIATION SELECTOR-143", aliases: &[] },
        Codepoint { codepoint: 0xE017F, name: "VARIATION SELECTOR-144", aliases: &[] },
        Codepoint { codepoint: 0xE0180, name: "VARIATION SELECTOR-145", aliases: &[] },
        Codepoint { codepoint: 0xE0181, name: "VARIATION SELECTOR-146", aliases: &[] },
        Codepoint { codepoint: 0xE0182, name: "VARIATION SELECTOR-147", aliases: &[] },
        Codepoint { codepoint: 0xE0183, name: "VARIATION SELECTOR-148", aliases: &[] },
        Codepoint { codepoint: 0xE0184, name: "VARIATION SELECTOR-149", aliases: &[] },
        Codepoint { codepoint: 0xE0185, name: "VARIATION SELECTOR-150", aliases: &[] },
        Codepoint { codepoint: 0xE0186, name: "VARIATION SELECTOR-151", aliases: &[] },
        Codepoint { codepoint: 0xE0187, name: "VARIATION SELECTOR-152", aliases: &[] },
        Codepoint { codepoint: 0xE0188, name: "VARIATION SELECTOR-153", aliases: &[] },
        Codepoint { codepoint: 0xE0189, name: "VARIATION SELECTOR-154", aliases: &[] },
    ]
}

fn all_codepoints_862() -> (v: Vec<Codepoint>)
    ensures
        v@ == codepoint_table_862(),
{
    let v = vec![
        Codepoint { codepoint: 0xE0162, name: "VARIATION SELECTOR-115", aliases: &[] },
        Codepoint { codepoint: 0xE0163, name: "VARIATION SELECTOR-116", aliases: &[] },
        Codepoint { codepoint: 0xE0164, name: "VARIATION SELECTOR-117", aliases: &[] },
        Codepoint { codepoint: 0xE0165, name: "VARIATION SELECTOR-118", aliases: &[] },
        Codepoint { codepoint: 0xE0166, name: "VARIATION SELECTOR-119", aliases: &[] },
        Codepoint { codepoint: 0xE0167, name: "VARIATION SELECTOR-120", aliases: &[] },
        Codepoint { codepoint: 0xE0168, name: "VARIATION SELECTOR-121", aliases: &[] },
        Codepoint { codepoint: 0xE0169, name: "VARIATION SELECTOR-122", aliases: &[] },
        Codepoint { codepoint: 0xE016A, name: "VARIATION SELECTOR-123", aliases: &[] },
        Codepoint { codepoint: 0xE016B, name: "VARIATION SELECTOR-124", aliases: &[] },
        Codepoint { codepoint: 0xE016C, name: "VARIATION SELECTOR-125", aliases: &[] },
        Codepoint { codepoint: 0xE016D, name: "VARIATION SELECTOR-126", aliases: &[] },
        Codepoint { codepoint: 0xE016E, name: "VARIATION SELECTOR-127", aliases: &[] },
        Codepoint { codepoint: 0xE016F, name: "VARIATION SELECTOR-128", aliases: &[] },
        Codepoint { codepoint: 0xE0170, name: "VARIATION SELECTOR-129", aliases: &[] },
        Codepoint { codepoint: 0xE0171, name: "VARIATION SELECTOR-130", aliases: &[] },
        Codepoint { codepoint: 0xE0172, name: "VARIATION SELECTOR-131", aliases: &[] },
        Codepoint { codepoint: 0xE0173, name: "VARIATION SELECTOR-132", aliases: &[] },
        Codepoint { codepoint: 0xE0174, name: "VARIATION SELECTOR-133", aliases: &[] },
        Codepoint { codepoint: 0xE0175, name: "VARIATION SELECTOR-134", aliases: &[] },
        Codepoint { codepoint: 0xE0176, name: "VARIATION SELECTOR-135", aliases: &[] },
        Codepoint { codepoint: 0xE0177, name: "VARIATION SELECTOR-136", aliases: &[] },
        Codepoint { codepoint: 0xE0178, name: "VARIATION SELECTOR-137", aliases: &[] },
        Codepoint { codepoint: 0xE0179, name: "VARIATION SELECTOR-138", aliases: &[] },
        Codepoint { codepoint: 0xE017A, name: "VARIATION SELECTOR-139", aliases: &[] },
        Codepoint { codepoint: 0xE017B, name: "VARIATION SELECTOR-140", aliases: &[] },
        Codepoint { codepoint: 0xE017C, name: "VARIATION SELECTOR-141", aliases: &[] },
        Codepoint { codepoint: 0xE017D, name: "VARIATION SELECTOR-142", aliases: &[] },
        Codepoint { codepoint: 0xE017E, name: "VARIATION SELECTOR-143", aliases: &[] },
        Codepoint { codepoint: 0xE017F, name: "VARIATION SELECTOR-144", aliases: &[] },
        Codepoint { codepoint: 0xE0180, name: "VARIATION SELECTOR-145", aliases: &[] },
        Codepoint { codepoint: 0xE0181, name: "VARIATION SELECTOR-146", aliases: &[] },
        Codepoint { codepoint: 0xE0182, name: "VARIATION SELECTOR-147", aliases: &[] },
        Codepoint { codepoint: 0xE0183, name: "VARIATION SELECTOR-148", aliases: &[] },
        Codepoint { codepoint: 0xE0184, name: "VARIATION SELECTOR-149", aliases: &[] },
        Codepoint { codepoint: 0xE0185, name: "VARIATION SELECTOR-150", aliases: &[] },
        Codepoint { codepoint: 0xE0186, name: "VARIATION SELECTOR-151", aliases: &[] },
        Codepoint { codepoint: 0xE0187, name: "VARIATION SELECTOR-152", aliases: &[] },
        Codepoint { codepoint: 0xE0188, name: "VARIATION SELECTOR-153", aliases: &[] },
        Codepoint { codepoint: 0xE0189, name: "VARIATION SELECTOR-154", aliases: &[] },
    ];
    assert(v@ =~= codepoint_table_862());
    v
}

pub open spec fn codepoint_table_863() -> Seq<Codepoint> {
    seq![
        Codepoint { codepoint: 0xE018A, name: "VARIATION SELECTOR-155", aliases: &[] },
        Codepoint { codepoint: 0xE018B, name: "VARIATION SELECTOR-156", aliases: &[] },
        Codepoint { codepoint: 0xE018C, name: "VARIATION SELECTOR-157", aliases: &[] },
        Codepoint { codepoint: 0xE018D, name: "VARIATION SELECTOR-158", aliases: &[] },
        Codepoint { codepoint: 0xE018E, name: "VARIATION SELECTOR-159", aliases: &[] },
        Codepoint { codepoint: 0xE018F, name: "VARIATION SELECTOR-160", aliases: &[] },
        Codepoint { codepoint: 0xE0190, name: "VARIATION SELECTOR-161", aliases: &[] },
        Codepoint { codepoint: 0xE0191, name: "VARIATION SELECTOR-162", aliases: &[] },
        Codepoint { codepoint: 0xE0192, name: "VARIATION SELECTOR-163", aliases: &[] },
        Codepoint { codepoint: 0xE0193, name: "VARIATION SELECTOR-164", aliases: &[] },
        Codepoint { codepoint: 0xE0194, name: "VARIATION SELECTOR-165", aliases: &[] },
        Codepoint { codepoint: 0xE0195, name: "VARIATION SELECTOR-166", aliases: &[] },
        Codepoint { codepoint: 0xE0196, name: "VARIATION SELECTOR-167", aliases: &[] },
        Codepoint { codepoint: 0xE0197, name: "VARIATION SELECTOR-168", aliases: &[] },
        Codepoint { codepoint: 0xE0198, name: "VARIATION SELECTOR-169", aliases: &[] },
        Codepoint { codepoint: 0xE0199, name: "VARIATION SELECTOR-170", aliases: &[] },
        Codepoint { codepoint: 0xE019A, name: "VARIATION SELECTOR-171", aliases: &[] },
        Codepoint { codepoint: 0xE019B, name: "VARIATION SELECTOR-172", aliases: &[] },
        Codepoint { codepoint: 0xE019C, name: "VARIATION SELECTOR-173", aliases: &[] },
        Codepoint { codepoint: 0xE019D, name: "VARIATION SELECTOR-174", aliases: &[] },
        Codepoint { codepoint: 0xE019E, name: "VARIATION SELECTOR-175", aliases: &[] },
        Codepoint { codepoint: 0xE019F, name: "VARIATION SELECTOR-176", aliases: &[] },
        Codepoint { codepoint: 0xE01A0, name: "VARIATION SELECTOR-177", aliases: &[] },
        Codepoint { codepoint: 0xE01A1, name: "VARIATION SELECTOR-178", aliases: &[] },
        Codepoint { codepoint: 0xE01A2, name: "VARIATION SELECTOR-179", aliases: &[] },
        Codepoint { codepoint: 0xE01A3, name: "VARIATION SELECTOR-180", aliases: &[] },
        Codepoint { codepoint: 0xE01A4, name: "VARIATION SELECTOR-181", aliases: &[] },
        Codepoint { codepoint: 0xE01A5, name: "VARIATION SELECTOR-182", aliases: &[] },
        Codepoint { codepoint: 0xE01A6, name: "VARIATION SELECTOR-183", aliases: &[] },
        Codepoint { codepoint: 0xE01A7, name: "VARIATION SELECTOR-184", aliases: &[] },
        Codepoint { codepoint: 0xE01A8, name: "VARIATION SELECTOR-185", aliases: &[] },
        Codepoint { codepoint: 0xE01A9, name: "VARIATION SELECTOR-186", aliases: &[] },
        Codepoint { codepoint: 0xE01AA, name: "VARIATION SELECTOR-187", aliases: &[] },
        Codepoint { codepoint: 0xE01AB, name: "VARIATION SELECTOR-188", aliases: &[] },
        Codepoint { codepoint: 0xE01AC, name: "VARIATION SELECTOR-189", aliases: &[] },
        Codepoint { codepoint: 0xE01AD, name: "VARIATION SELECTOR-190", aliases: &[] },
        Codepoint { codepoint: 0xE01AE, name: "VARIATION SELECTOR-191", aliases: &[] },
        Codepoint { codepoint: 0xE01AF, name: "VARIATION SELECTOR-192", aliases: &[] },
        Codepoint { codepoint: 0xE01B0, name: "VARIATION SELECTOR-193", aliases: &[] },
        Codepoint { codepoint: 0xE01B1, name: "VARIATION SELECTOR-194", aliases: &[] },
    ]
}

fn all_codepoints_863() -> (v: Vec<Codepoint>)
    ensures
        v@ == codepoint_table_863(),
{
    let v = vec![
        Codepoint { codepoint: 0xE018A, name: "VARIATION SELECTOR-155", aliases: &[] },
        Codepoint { codepoint: 0xE018B, name: "VARIATION SELECTOR-156", aliases: &[] },
        Codepoint { codepoint: 0xE018C, name: "VARIATION SELECTOR-157", aliases: &[] },
        Codepoint { codepoint: 0xE018D, name: "VARIATION SELECTOR-158", aliases: &[] },
        Codepoint { codepoint: 0xE018E, name: "VARIATION SELECTOR-159", aliases: &[] },
        Codepoint { codepoint: 0xE018F, name: "VARIATION SELECTOR-160", aliases: &[] },
        Codepoint { codepoint: 0xE0190, name: "VARIATION SELECTOR-161", aliases: &[] },
        Codepoint { codepoint: 0xE0191, name: "VARIATION SELECTOR-162", aliases: &[] },
        Codepoint { codepoint: 0xE0192, name: "VARIATION SELECTOR-163", aliases: &[] },
        Codepoint { codepoint: 0xE0193, name: "VARIATION SELECTOR-164", aliases: &[] },
        Codepoint { codepoint: 0xE0194, name: "VARIATION SELECTOR-165", aliases: &[] },
        Codepoint { codepoint: 0xE0195, name: "VARIATION SELECTOR-166", aliases: &[] },
        Codepoint { codepoint: 0xE0196, name: "VARIATION SELECTOR-167", aliases: &[] },
        Codepoint { codepoint: 0xE0197, name: "VARIATION SELECTOR-168", aliases: &[] },
        Codepoint { codepoint: 0xE0198, name: "VARIATION SELECTOR-169", aliases: &[] },
        Codepoint { codepoint: 0xE0199, name: "VARIATION SELECTOR-170", aliases: &[] },
        Codepoint { codepoint: 0xE019A, name: "VARIATION SELECTOR-171", aliases: &[] },
        Codepoint { codepoint: 0xE019B, name: "VARIATION SELECTOR-172", aliases: &[] },
        Codepoint { codepoint: 0xE019C, name: "VARIATION SELECTOR-173", aliases: &[] },
        Codepoint { codepoint: 0xE019D, name: "VARIATION SELECTOR-174", aliases: &[] },
        Codepoint { codepoint: 0xE019E, name: "VARIATION SELECTOR-175", aliases: &[] },
        Codepoint { codepoint: 0xE019F, name: "VARIATION SELECTOR-176", aliases: &[] },
        Codepoint { codepoint: 0xE01A0, name: "VARIATION SELECTOR-177", aliases: &[] },
        Codepoint { codepoint: 0xE01A1, name: "VARIATION SELECTOR-178", aliases: &[] },
        Codepoint { codepoint: 0xE01A2, name: "VARIATION SELECTOR-179", aliases: &[] },
        Codepoint { codepoint: 0xE01A3, name: "VARIATION SELECTOR-180", aliases: &[] },
        Codepoint { codepoint: 0xE01A4, name: "VARIATION SELECTOR-181", aliases: &[] },
        Codepoint { codepoint: 0xE01A5, name: "VARIATION SELECTOR-182", aliases: &[] },
        Codepoint { codepoint: 0xE01A6, name: "VARIATION SELECTOR-183", aliases: &[] },
        Codepoint { codepoint: 0xE01A7, name: "VARIATION SELECTOR-184", aliases: &[] },
        Codepoint { codepoint: 0xE01A8, name: "VARIATION SELECTOR-185", aliases: &[] },
        Codepoint { codepoint: 0xE01A9, name: "VARIATION SELECTOR-186", aliases: &[] },
        Codepoint { codepoint: 0xE01AA, name: "VARIATION SELECTOR-187", aliases: &[] },
        Codepoint { codepoint: 0xE01AB, name: "VARIATION SELECTOR-188", aliases: &[] },
        Codepoint { codepoint: 0xE01AC, name: "VARIATION SELECTOR-189", aliases: &[] },
        Codepoint { codepoint: 0xE01AD, name: "VARIATION SELECTOR-190", aliases: &[] },
        Codepoint { codepoint: 0xE01AE, name: "VARIATION SELECTOR-191", aliases: &[] },
        Codepoint { codepoint: 0xE01AF, name: "VARIATION SELECTOR-192", aliases: &[] },
        Codepoint { codepoint: 0xE01B0, name: "VARIATION SELECTOR-193", aliases: &[] },
        Codepoint { codepoint: 0xE01B1, name: "VARIATION SELECTOR-194", aliases: &[] },
    ];
    assert(v@ =~= codepoint_table_863());
    v
}

pub open spec fn codepoint_table_864() -> Seq<Codepoint> {
    seq![
        Codepoint { codepoint: 0xE01B2, name: "VARIATION SELECTOR-195", aliases: &[] },
        Codepoint { codepoint: 0xE01B3, name: "VARIATION SELECTOR-196", aliases: &[] },
        Codepoint { codepoint: 0xE01B4, name: "VARIATION SELECTOR-197", aliases: &[] },
        Codepoint { codepoint: 0xE01B5, name: "VARIATION SELECTOR-198", aliases: &[] },
        Codepoint { codepoint: 0xE01B6, name: "VARIATION SELECTOR-199", aliases: &[] },
        Codepoint { codepoint: 0xE01B7, name: "VARIATION SELECTOR-200", aliases: &[] },
        Codepoint { codepoint: 0xE01B8, name: "VARIATION SELECTOR-201", aliases: &[] },
        Codepoint { codepoint: 0xE01B9, name: "VARIATION SELECTOR-202", aliases: &[] },
        Codepoint { codepoint: 0xE01BA, name: "VARIATION SELECTOR-203", aliases: &[] },
        Codepoint { codepoint: 0xE01BB, name: "VARIATION SELECTOR-204", aliases: &[] },
        Codepoint { codepoint: 0xE01BC, name: "VARIATION SELECTOR-205", aliases: &[] },
        Codepoint { codepoint: 0xE01BD, name: "VARIATION SELECTOR-206", aliases: &[] },
        Codepoint { codepoint: 0xE01BE, name: "VARIATION SELECTOR-207", aliases: &[] },
        Codepoint { codepoint: 0xE01BF, name: "VARIATION SELECTOR-208", aliases: &[] },
        Codepoint { codepoint: 0xE01C0, name: "VARIATION SELECTOR-209", aliases: &[] },
        Codepoint { codepoint: 0xE01C1, name: "VARIATION SELECTOR-210", aliases: &[] },
        Codepoint { codepoint: 0xE01C2, name: "VARIATION SELECTOR-211", aliases: &[] },
        Codepoint { codepoint: 0xE01C3, name: "VARIATION SELECTOR-212", aliases: &[] },
        Codepoint { codepoint: 0xE01C4, name: "VARIATION SELECTOR-213", aliases: &[] },
        Codepoint { codepoint: 0xE01C5, name: "VARIATION SELECTOR-214", aliases: &[] },
        Codepoint { codepoint: 0xE01C6, name: "VARIATION SELECTOR-215", aliases: &[] },
        Codepoint { codepoint: 0xE01C7, name: "VARIATION SELECTOR-216", aliases: &[] },
        Codepoint { codepoint: 0xE01C8, name: "VARIATION SELECTOR-217", aliases: &[] },
        Codepoint { codepoint: 0xE01C9, name: "VARIATION SELECTOR-218", aliases: &[] },
        Codepoint { codepoint: 0xE01CA, name: "VARIATION SELECTOR-219", aliases: &[] },
        Codepoint { codepoint: 0xE01CB, name: "VARIATION SELECTOR-220", aliases: &[] },
        Codepoint { codepoint: 0xE01CC, name: "VARIATION SELECTOR-221", aliases: &[] },
        Codepoint { codepoint: 0xE01CD, name: "VARIATION SELECTOR-222", aliases: &[] },
        Codepoint { codepoint: 0xE01CE, name: "VARIATION SELECTOR-223", aliases: &[] },
        Codepoint { codepoint: 0xE01CF, name: "VARIATION SELECTOR-224", aliases: &[] },
        Codepoint { codepoint: 0xE01D0, name: "VARIATION SELECTOR-225", aliases: &[] },
        Codepoint { codepoint: 0xE01D1, name: "VARIATION SELECTOR-226", aliases: &[] },
        Codepoint { codepoint: 0xE01D2, name: "VARIATION SELECTOR-227", aliases: &[] },
        Codepoint { codepoint: 0xE01D3, name: "VARIATION SELECTOR-228", aliases: &[] },
        Codepoint { codepoint: 0xE01D4, name: "VARIATION SELECTOR-229", aliases: &[] },
        Codepoint { codepoint: 0xE01D5, name: "VARIATION SELECTOR-230", aliases: &[] },
        Codepoint { codepoint: 0xE01D6, name: "VARIATION SELECTOR-231", aliases: &[] },
        Codepoint { codepoint: 0xE01D7, name: "VARIATION SELECTOR-232", aliases: &[] },
        Codepoint { codepoint: 0xE01D8, name: "VARIATION SELECTOR-233", aliases: &[] },
        Codepoint { codepoint: 0xE01D9, name: "VARIATION SELECTOR-234", aliases: &[] },
    ]
}

fn all_codepoints_864() -> (v: Vec<Codepoint>)
    ensures
        v@ == codepoint_table_864(),
{
    let v = vec![
        Codepoint { codepoint: 0xE01B2, name: "VARIATION SELECTOR-195", aliases: &[] },
        Codepoint { codepoint: 0xE01B3, name: "VARIATION SELECTOR-196", aliases: &[] },
        Codepoint { codepoint: 0xE01B4, name: "VARIATION SELECTOR-197", aliases: &[] },
        Codepoint { codepoint: 0xE01B5, name: "VARIATION SELECTOR-198", aliases: &[] },
        Codepoint { codepoint: 0xE01B6, name: "VARIATION SELECTOR-199", aliases: &[] },
        Codepoint { codepoint: 0xE01B7, name: "VARIATION SELECTOR-200", aliases: &[] },
        Codepoint { codepoint: 0xE01B8, name: "VARIATION SELECTOR-201", aliases: &[] },
        Codepoint { codepoint: 0xE01B9, name: "VARIATION SELECTOR-202", aliases: &[] },
        Codepoint { codepoint: 0xE01BA, name: "VARIATION SELECTOR-203", aliases: &[] },
        Codepoint { codepoint: 0xE01BB, name: "VARIATION SELECTOR-204", aliases: &[] },
        Codepoint { codepoint: 0xE01BC, name: "VARIATION SELECTOR-205", aliases: &[] },
        Codepoint { codepoint: 0xE01BD, name: "VARIATION SELECTOR-206", aliases: &[] },
        Codepoint { codepoint: 0xE01BE, name: "VARIATION SELECTOR-207", aliases: &[] },
        Codepoint { codepoint: 0xE01BF, name: "VARIATION SELECTOR-208", aliases: &[] },
        Codepoint { codepoint: 0xE01C0, name: "VARIATION SELECTOR-209", aliases: &[] },
        Codepoint { codepoint: 0xE01C1, name: "VARIATION SELECTOR-210", aliases: &[] },
        Codepoint { codepoint: 0xE01C2, name: "VARIATION SELECTOR-211", aliases: &[] },
        Codepoint { codepoint: 0xE01C3, name: "VARIATION SELECTOR-212", aliases: &[] },
        Codepoint { codepoint: 0xE01C4, name: "VARIATION SELECTOR-213", aliases: &[] },
        Codepoint { codepoint: 0xE01C5, name: "VARIATION SELECTOR-214", aliases: &[] },
        Codepoint { codepoint: 0xE01C6, name: "VARIATION SELECTOR-215", aliases: &[] },
        Codepoint { codepoint: 0xE01C7, name: "VARIATION SELECTOR-216", aliases: &[] },
        Codepoint { codepoint: 0xE01C8, name: "VARIATION SELECTOR-217", aliases: &[] },
        Codepoint { codepoint: 0xE01C9, name: "VARIATION SELECTOR-218", aliases: &[] },
        Codepoint { codepoint: 0xE01CA, name: "VARIATION SELECTOR-219", aliases: &[] },
        Codepoint { codepoint: 0xE01CB, name: "VARIATION SELECTOR-220", aliases: &[] },
        Codepoint { codepoint: 0xE01CC, name: "VARIATION SELECTOR-221", aliases: &[] },
        Codepoint { codepoint: 0xE01CD, name: "VARIATION SELECTOR-222", aliases: &[] },
        Codepoint { codepoint: 0xE01CE, name: "VARIATION SELECTOR-223", aliases: &[] },
        Codepoint { codepoint: 0xE01CF, name: "VARIATION SELECTOR-224", aliases: &[] },
        Codepoint { codepoint: 0xE01D0, name: "VARIATION SELECTOR-225", aliases: &[] },
        Codepoint { codepoint: 0xE01D1, name: "VARIATION SELECTOR-226", aliases: &[] },
        Codepoint { codepoint: 0xE01D2, name: "VARIATION SELECTOR-227", aliases: &[] },
        Codepoint { codepoint: 0xE01D3, name: "VARIATION SELECTOR-228", aliases: &[] },
        Codepoint { codepoint: 0xE01D4, name: "VARIATION SELECTOR-229", aliases: &[] },
        Codepoint { codepoint: 0xE01D5, name: "VARIATION SELECTOR-230", aliases: &[] },
        Codepoint { codepoint: 0xE01D6, name: "VARIATION SELECTOR-231", aliases: &[] },
        Codepoint { codepoint: 0xE01D7, name: "VARIATION SELECTOR-232", aliases: &[] },
        Codepoint { codepoint: 0xE01D8, name: "VARIATION SELECTOR-233", aliases: &[] },
        Codepoint { codepoint: 0xE01D9, name: "VARIATION SELECTOR-234", aliases: &[] },
    ];
    assert(v@ =~= codepoint_table_864());
    v
}

pub open spec fn codepoint_table_865() -> Seq<Codepoint> {
    seq![
        Codepoint { codepoint: 0xE01DA, name: "VARIATION SELECTOR-235", aliases: &[] },
        Codepoint { codepoint: 0xE01DB, name: "VARIATION SELECTOR-236", aliases: &[] },
        Codepoint { codepoint: 0xE01DC, name: "VARIATION SELECTOR-237", aliases: &[] },
        Codepoint { codepoint: 0xE01DD, name: "VARIATION SELECTOR-238", aliases: &[] },
        Codepoint { codepoint: 0xE01DE, name: "VARIATION SELECTOR-239", aliases: &[] },
        Codepoint { codepoint: 0xE01DF, name: "VARIATION SELECTOR-240", aliases: &[] },
        Codepoint { codepoint: 0xE01E0, name: "VARIATION SELECTOR-241", aliases: &[] },
        Codepoint { codepoint: 0xE01E1, name: "VARIATION SELECTOR-242", aliases: &[] },
        Codepoint { codepoint: 0xE01E2, name: "VARIATION SELECTOR-243", aliases: &[] },
        Codepoint { codepoint: 0xE01E3, name: "VARIATION SELECTOR-244", aliases: &[] },
        Codepoint { codepoint: 0xE01E4, name: "VARIATION SELECTOR-245", aliases: &[] },
        Codepoint { codepoint: 0xE01E5, name: "VARIATION SELECTOR-246", aliases: &[] },
        Codepoint { codepoint: 0xE01E6, name: "VARIATION SELECTOR-247", aliases: &[] },
        Codepoint { codepoint: 0xE01E7, name: "VARIATION SELECTOR-248", aliases: &[] },
        Codepoint { codepoint: 0xE01E8, name: "VARIATION SELECTOR-249", aliases: &[] },
        Codepoint { codepoint: 0xE01E9, name: "VARIATION SELECTOR-250", aliases: &[] },
        Codepoint { codepoint: 0xE01EA, name: "VARIATION SELECTOR-251", aliases: &[] },
        Codepoint { codepoint: 0xE01EB, name: "VARIATION SELECTOR-252", aliases: &[] },
        Codepoint { codepoint: 0xE01EC, name: "VARIATION SELECTOR-253", aliases: &[] },
        Codepoint { codepoint: 0xE01ED, name: "VARIATION SELECTOR-254", aliases: &[] },
        Codepoint { codepoint: 0xE01EE, name: "VARIATION SELECTOR-255", aliases: &[] },
        Codepoint { codepoint: 0xE01EF, name: "VARIATION SELECTOR-256", aliases: &[] },
        Codepoint { codepoint: 0xF0000, name: "<Plane 15 Private Use, First>", aliases: &[] },
        Codepoint { codepoint: 0xFFFFD, name: "<Plane 15 Private Use, Last>", aliases: &[] },
        Codepoint { codepoint: 0x100000, name: "<Plane 16 Private Use, First>", aliases: &[] },
        Codepoint { codepoint: 0x10FFFD, name: "<Plane 16 Private Use, Last>", aliases: &[] },
    ]
}

fn all_codepoints_865() -> (v: Vec<Codepoint>)
    ensures
        v@ == codepoint_table_865(),
{
    let v = vec![
        Codepoint { codepoint: 0xE01DA, name: "VARIATION SELECTOR-235", aliases: &[] },
        Codepoint { codepoint: 0xE01DB, name: "VARIATION SELECTOR-236", aliases: &[] },
        Codepoint { codepoint: 0xE01DC, name: "VARIATION SELECTOR-237", aliases: &[] },
        Codepoint { codepoint: 0xE01DD, name: "VARIATION SELECTOR-238", aliases: &[] },
        Codepoint { codepoint: 0xE01DE, name: "VARIATION SELECTOR-239", aliases: &[] },
        Codepoint { codepoint: 0xE01DF, name: "VARIATION SELECTOR-240", aliases: &[] },
        Codepoint { codepoint: 0xE01E0, name: "VARIATION SELECTOR-241", aliases: &[] },
        Codepoint { codepoint: 0xE01E1, name: "VARIATION SELECTOR-242", aliases: &[] },
        Codepoint { codepoint: 0xE01E2, name: "VARIATION SELECTOR-243", aliases: &[] },
        Codepoint { codepoint: 0xE01E3, name: "VARIATION SELECTOR-244", aliases: &[] },
        Codepoint { codepoint: 0xE01E4, name: "VARIATION SELECTOR-245", aliases: &[] },
        Codepoint { codepoint: 0xE01E5, name: "VARIATION SELECTOR-246", aliases: &[] },
        Codepoint { codepoint: 0xE01E6, name: "VARIATION SELECTOR-247", aliases: &[] },
        Codepoint { codepoint: 0xE01E7, name: "VARIATION SELECTOR-248", aliases: &[] },
        Codepoint { codepoint: 0xE01E8, name: "VARIATION SELECTOR-249", aliases: &[] },
        Codepoint { codepoint: 0xE01E9, name: "VARIATION SELECTOR-250", aliases: &[] },
        Codepoint { codepoint: 0xE01EA, name: "VARIATION SELECTOR-251", aliases: &[] },
        Codepoint { codepoint: 0xE01EB, name: "VARIATION SELECTOR-252", aliases: &[] },
        Codepoint { codepoint: 0xE01EC, name: "VARIATION SELECTOR-253", aliases: &[] },
        Codepoint { codepoint: 0xE01ED, name: "VARIATION SELECTOR-254", aliases: &[] },
        Codepoint { codepoint: 0xE01EE, name: "VARIATION SELECTOR-255", aliases: &[] },
        Codepoint { codepoint: 0xE01EF, name: "VARIATION SELECTOR-256", aliases: &[] },
        Codepoint { codepoint: 0xF0000, name: "<Plane 15 Private Use, First>", aliases: &[] },
        Codepoint { codepoint: 0xFFFFD, name: "<Plane 15 Private Use, Last>", aliases: &[] },
        Codepoint { codepoint: 0x100000, name: "<Plane 16 Private Use, First>", aliases: &[] },
        Codepoint { codepoint: 0x10FFFD, name: "<Plane 16 Private Use, Last>", aliases: &[] },
    ];
    assert(v@ =~= codepoint_table_865());
    v
}

/// The entries from position 34400 of the table, 240 at most.
pub open spec fn codepoint_group_43() -> Seq<Codepoint> {
    codepoint_table_860() + codepoint_table_861() + codepoint_table_862() + codepoint_table_863() + codepoint_table_864() + codepoint_table_865()
}

pub fn all_codepoints_group_43() -> (v: Vec<Codepoint>)
    ensures
        v@ == codepoint_group_43(),
{
    let mut v = all_codepoints_860();
    let mut part = all_codepoints_861();
    v.append(&mut part);
    let mut part = all_codepoints_862();
    v.append(&mut part);
    let mut part = all_codepoints_863();
    v.append(&mut part);
    let mut part = all_codepoints_864();
    v.append(&mut part);
    let mut part = all_codepoints_865();
    v.append(&mut part);
    v
}

} // verus!
