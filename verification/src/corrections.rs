//! The correction table for known irregularities of the source document.
//!
//! A raw entry string is looked up verbatim; when present, the corrected
//! string replaces it, otherwise it passes through unchanged. The table is
//! pure data, curated from manual inspection of the one document this
//! library is tuned to: missing colons or commas, stray control
//! characters, misplaced pronunciation brackets and the like. No corrected
//! string is itself a key of the table (two entries carry a correction
//! equal to their key), so applying the correction twice changes nothing;
//! `lemma_patch_idempotent` states that law.

use vstd::prelude::*;

use crate::strutil::str_eq;

verus! {

/// The correction for a raw entry string: the table's replacement where
/// the string is a key, else the string itself.
pub open spec fn spec_patch(s: Seq<char>) -> Seq<char> {
    if s == "altså [副] [ˈal’sɔ, ˈαl’sɔ] すなわち，それゆえに，したがって，つまり，ようするに；〔話し手の心的態度を表す文副詞〕［意味を強めて］ほんとうに，まったく；［驚きを表して］なんと！；［遺憾，不満，苛立ち；非難・咎めを表して］ほんとうに，いいかげん（に）；［相手の言ったことに対して，相手の計画等の変更を促して］（…ということなのですが，それでもあなたは…するのですか？）；［間投詞的に用いられて，いらだち，非難，没頭など様々な感情を表す（特に話しことばにおいて）］あのねえ！，いいかい！，いやはや！，やれやれ！，これは驚いた！ "@ {
        "altså [副] [ˈal’sɔ, ˈαl’sɔ]: すなわち，それゆえに，したがって，つまり，ようするに；〔話し手の心的態度を表す文副詞〕［意味を強めて］ほんとうに，まったく；［驚きを表して］なんと！；［遺憾，不満，苛立ち；非難・咎めを表して］ほんとうに，いいかげん（に）；［相手の言ったことに対して，相手の計画等の変更を促して］（…ということなのですが，それでもあなたは…するのですか？）；［間投詞的に用いられて，いらだち，非難，没頭など様々な感情を表す（特に話しことばにおいて）］あのねえ！，いいかい！，いやはや！，やれやれ！，これは驚いた！ "@
    } else if s == "Amager [固] [ˈαˌmα;] アマー［地名：コペンハーゲン南部の島．Kastrup空港がある］． "@ {
        "Amager [固] [ˈαˌmα;]: アマー［地名：コペンハーゲン南部の島．Kastrup空港がある］． "@
    } else if s == "Amaliegade [固] [aˈmȧ;ljənˌgȧ:ðə] アメーリェゲーゼ［通り：コペンハーゲン］． "@ {
        "Amaliegade [固] [aˈmȧ;ljənˌgȧ:ðə]: アメーリェゲーゼ［通り：コペンハーゲン］． "@
    } else if s == "Amalienborg [固] [aˈmȧ;ljənˌbɑ\u{30a}’] アメーリェンボー［王宮：コペンハーゲン］． "@ {
        "Amalienborg [固] [aˈmȧ;ljənˌbɑ\u{30a}’]: アメーリェンボー［王宮：コペンハーゲン］． "@
    } else if s == "De [ˈdi, di] [代] [ˈdi, di], Dem [ˈdæm, dæm], Deres [ˈdȧɹɔs, ˈdȧ:ɔs, dȧɔs]:［人称代名詞２人称単数・複数］［フォーマルな関係の人に対して用いる］あなた，あなた方． "@ {
        "De [代] [ˈdi, di], Dem [ˈdæm, dæm], Deres [ˈdȧɹɔs, ˈdȧ:ɔs, dȧɔs]:［人称代名詞２人称単数・複数］［フォーマルな関係の人に対して用いる］あなた，あなた方． "@
    } else if s == "de [ˈdi, di] [代] [ˈdi, di], dem [ˈdæm, dæm], deres [ˈdȧɹɔs, ˈdȧ:ɔs, dȧɔs]:［人称代名詞３人称複数］彼ら，彼女ら，それら；［不定代名詞］(一般の)人々，みんな；権威，当局；［指示代名詞］［人・動物・もの・ことを指して］あれら(の)，それら(の)；(…する・である)人たち・もの． "@ {
        "de [代] [ˈdi, di], dem [ˈdæm, dæm], deres [ˈdȧɹɔs, ˈdȧ:ɔs, dȧɔs]:［人称代名詞３人称複数］彼ら，彼女ら，それら；［不定代名詞］(一般の)人々，みんな；権威，当局；［指示代名詞］［人・動物・もの・ことを指して］あれら(の)，それら(の)；(…する・である)人たち・もの． "@
    } else if s == "den1 [ˈdæn’, dæn] [代] [ˈdæn’, dæn], dens [ˈdæn(’)s, dæns], det [ˈde, de],  dets [ˈdæds, dæds], de [ˈdi, di], dem [ˈdæm, dæm], deres [ˈdȧɹɔs, ˈdȧ:ɔs, dȧɔs]:［人称代名詞３人称］［すでに述べた動物・もの・ことに参照して］それ；［指示代名詞］［人・動物・もの・ことを指して］あれ，それ；あの，その；前者の；前者． "@ {
        "den1 [代] [ˈdæn’, dæn], dens [ˈdæn(’)s, dæns], det [ˈde, de],  dets [ˈdæds, dæds], de [ˈdi, di], dem [ˈdæm, dæm], deres [ˈdȧɹɔs, ˈdȧ:ɔs, dȧɔs]:［人称代名詞３人称］［すでに述べた動物・もの・ことに参照して］それ；［指示代名詞］［人・動物・もの・ことを指して］あれ，それ；あの，その；前者の；前者． "@
    } else if s == "en2 [数] [ˈe;n] et [ˈed]: 一，1つ，1人，1個 "@ {
        "en2 [数] [ˈe;n], et [ˈed]: 一，1つ，1人，1個 "@
    } else if s == "firsindstyvende [数] [ˈfiɹ’sənsˈty:vənə] 第八十番目の． "@ {
        "firsindstyvende [数] [ˈfiɹ’sənsˈty:vənə]: 第八十番目の． "@
    } else if s == "Frederiksborg Slot [固] [fræðrægsˈbɑ\u{30a};ˈslɔd] フレズレクスボー城［北シェランにある城］ "@ {
        "Frederiksborg Slot [固] [fræðrægsˈbɑ\u{30a};ˈslɔd]: フレズレクスボー城［北シェランにある城］ "@
    } else if s == "græker [名] [ˈgræ;gɔ], grækeren [ˈgræ;gɔɔn], grækere [ˈgræ;gɔɔ],  grækerne [ˈgræ;gɔnə], ギリシア人 "@ {
        "græker [名] [ˈgræ;gɔ], grækeren [ˈgræ;gɔɔn], grækere [ˈgræ;gɔɔ],  grækerne [ˈgræ;gɔnə]: ギリシア人 "@
    } else if s == "halvfemsindstyvende [数] [halˈfæm’sənsˈty:vənə, halˈfæm’sənsˈty:wənə] 第九十番目の． "@ {
        "halvfemsindstyvende [数] [halˈfæm’sənsˈty:vənə, halˈfæm’sənsˈty:wənə]: 第九十番目の． "@
    } else if s == "halvfjerdsindstyvende [数] [halˈfjȧɹsənsˈty:vənə, halˈfjȧɹsənsˈty:wənə] 第七十番目の． "@ {
        "halvfjerdsindstyvende [数] [halˈfjȧɹsənsˈty:vənə, halˈfjȧɹsənsˈty:wənə]: 第七十番目の． "@
    } else if s == "halvtredsindstyvende [数] [ˈtræsənsˈty:vənə, ˈtræsənsˈty:wənə] 第五十番目の． "@ {
        "halvtredsindstyvende [数] [ˈtræsənsˈty:vənə, ˈtræsənsˈty:wənə]: 第五十番目の． "@
    } else if s == "have1 [名] [ˈhȧ:və, ˈhȧ:wə], haven [[ˈhȧ:vən, ˈhȧ:wən], haver [ˈhȧ:vɔ, ˈhȧ:wɔ],  haverne [ˈhȧ:vɔnə, ˈhȧ:wɔnə]: 庭，庭園，公園． "@ {
        "have1 [名] [ˈhȧ:və, ˈhȧ:wə], haven [ˈhȧ:vən, ˈhȧ:wən], haver [ˈhȧ:vɔ, ˈhȧ:wɔ],  haverne [ˈhȧ:vɔnə, ˈhȧ:wɔnə]: 庭，庭園，公園． "@
    } else if s == "hof [名] [ˈhɔf] en, hoffer [ˈhɔfɔ]: デンマークのビール会社カールスベア社 (Carlsberg) のラガービールの愛称． "@ {
        "hof [名] [ˈhɔf] en, hoffer [ˈhɔfɔ]: デンマークのビール会社カールスベア社 (Carlsberg) のラガービールの愛称． "@
    } else if s == "hun [代] [ˈhun, hun] hende [ˈhenə, henə], hendes [ˈhenəs, henəs]:［人称代名詞３人称単数女性］彼女． "@ {
        "hun [代] [ˈhun, hun], hende [ˈhenə, henə], hendes [ˈhenəs, henəs]:［人称代名詞３人称単数女性］彼女． "@
    } else if s == "hvem [代] [ˈvæm’],［所有格］hvis [ˈves]:［疑問代名詞］誰・どの人・どんな人(が・を・に)；［関係代名詞］［人を表す先行詞を受けて］…するところの(人)［現在では，この用法では，hvemが関係節中の主語になることはない］；［先行詞を含む不定関係代名詞］(…する)だれでも，どんな人でも． "@ {
        "hvem [代] [ˈvæm’], hvis [ˈves]:［疑問代名詞］誰・どの人・どんな人(が・を・に)；［関係代名詞］［人を表す先行詞を受けて］…するところの(人)［現在では，この用法では，hvemが関係節中の主語になることはない］；［先行詞を含む不定関係代名詞］(…する)だれでも，どんな人でも． "@
    } else if s == "jeg [代] [ˈjα(ᒑ), jα(ᒑ)] mig [ˈmαᒑ, mα(ᒑ)]:［人称代名詞１人称単数］私，僕． "@ {
        "jeg [代] [ˈjα(ᒑ), jα(ᒑ)], mig [ˈmαᒑ, mα(ᒑ)]:［人称代名詞１人称単数］私，僕． "@
    } else if s == "klejne [名] [ˈklαᒑnə], klejnen [名] [ˈklαᒑnən], klejner [ˈklαᒑnɔ], klejner [ˈklαᒑnɔnə]: クライネ（特にクリスマスの時期に食する，ねじりドーナッツ）． "@ {
        "klejne [名] [ˈklαᒑnə], klejnen [ˈklαᒑnən], klejner [ˈklαᒑnɔ], klejner [ˈklαᒑnɔnə]: クライネ（特にクリスマスの時期に食する，ねじりドーナッツ）． "@
    } else if s == "knuse [動] [ˈknu:sə], knuser [ˈknu;sɔ], knuste [ˈknu:sdə], knust [ˈknu;sd],  knusende [ˈknu:sənə], knus\u{f022} [ˈknu;s]: 壊す，こなごなにする，砕く． "@ {
        "knuse [動] [ˈknu:sə], knuser [ˈknu;sɔ], knuste [ˈknu:sdə], knust [ˈknu;sd],  knusende [ˈknu:sənə], knus! [ˈknu;s]: 壊す，こなごなにする，砕く． "@
    } else if s == "lille [形] [ˈlilə]［性，既知/未知を問わず，名詞の単数形とともに］, små [små;] [性，既知/未知を問わず，名詞の複数形とともに]，mindre [ˈmendrɔ], mindst [ˈmen’sd], mindste [ˈmen’sdə]: 小さな． "@ {
        "lille [形] [ˈlilə], små [små;], mindre [ˈmendrɔ], mindst [ˈmen’sd], mindste [ˈmen’sdə]: 小さな． "@
    } else if s == "Louisiana [固] [luisiˈana] ルイスィアナ美術館［北シェランのホムレベク(Humlebæk) にある美術館］． "@ {
        "Louisiana [固] [luisiˈana]: ルイスィアナ美術館［北シェランのホムレベク(Humlebæk) にある美術館］． "@
    } else if s == "O.k. [間] [ˈåwˈkæᒑ]/[ˈo;ˈkå;]: OK，了解，わかりました "@ {
        "O.k. [間] [ˈåwˈkæᒑ, ˈo;ˈkå;]: OK，了解，わかりました "@
    } else if s == "Samsø [固] [ˈsαmˌsø;] サムスー島． "@ {
        "Samsø [固] [ˈsαmˌsø;]: サムスー島． "@
    } else if s == "snitte [動] [ˈsnidə], snitter [ˈsnidɔ], snittede [ˈsnidəðə], snittet [ˈsnidəð],  snittende [ˈsnidənə], snit!] [ˈsnid]: (木などを)ナイフで少し削る；彫る，刻む；細かく・薄く切る． "@ {
        "snitte [動] [ˈsnidə], snitter [ˈsnidɔ], snittede [ˈsnidəðə], snittet [ˈsnidəð],  snittende [ˈsnidənə], snit! [ˈsnid]: (木などを)ナイフで少し削る；彫る，刻む；細かく・薄く切る． "@
    } else if s == "spændende [形] [ˈsbænənə] [不変化], , mere spændende, mest spændende: 面白い；わくわくする；スリリングな． "@ {
        "spændende [形] [ˈsbænənə] [不変化], mere spændende, mest spændende: 面白い；わくわくする；スリリングな． "@
    } else if s == "tuborg [名] [ˈtuˌbɑ;] en, tuborg [ˈtuˌbɑ;]: かつてはビール会社トゥボー社が生産し，現在はカールスベア社が生産しているラガービールgrøm tuborgの愛称． "@ {
        "tuborg [名] [ˈtuˌbɑ;] en, tuborg [ˈtuˌbɑ;]: かつてはビール会社トゥボー社が生産し，現在はカールスベア社が生産しているラガービールgrøm tuborgの愛称． "@
    } else if s == "varm [形] [ˈvα;m], varmt [ˈvα;md], varme [ˈvα:mə], varmere [ˈvα:mɔɔ],  varmest [ˈvα:məsd], varmeste [ˈvα:məsdə];温かい，暖かい；やや暑い；熱い；思いやりのある，心のこもった． "@ {
        "varm [形] [ˈvα;m], varmt [ˈvα;md], varme [ˈvα:mə], varmere [ˈvα:mɔɔ],  varmest [ˈvα:məsd], varmeste [ˈvα:məsdə]: 温かい，暖かい；やや暑い；熱い；思いやりのある，心のこもった． "@
    } else if s == "vid [形] [ˈvi;ð], vidt [ˈvid], vide [形] [ˈvi:ðə], videre [ˈvi:ðɔɔ, videst [ˈvi:ðəsd],  videste [ˈvi:ðəsdə]: 広い，広大な，広々とした；遠い，遠く離れた． "@ {
        "vid [形] [ˈvi;ð], vidt [ˈvid], vide [ˈvi:ðə], videre [ˈvi:ðɔɔ], videst [ˈvi:ðəsd],  videste [ˈvi:ðəsdə]: 広い，広大な，広々とした；遠い，遠く離れた． "@
    } else if s == "øre1 [名] [ˈø:ɔ], øret [ˈø:ɔð], ører [ˈø:ɔ](/øren [ˈø:ɔn]), ørerne [ˈø:ɔnə]: 耳． "@ {
        "øre1 [名] [ˈø:ɔ], øret [ˈø:ɔð], ører [ˈø:ɔ]/øren [ˈø:ɔn], ørerne [ˈø:ɔnə]: 耳． "@
    } else {
        s
    }
}

/// Applies the correction table to one raw entry string.
pub fn patch<'a>(s: &'a str) -> (r: &'a str)
    ensures
        r@ == spec_patch(s@),
{
    if str_eq(s, "altså [副] [ˈal’sɔ, ˈαl’sɔ] すなわち，それゆえに，したがって，つまり，ようするに；〔話し手の心的態度を表す文副詞〕［意味を強めて］ほんとうに，まったく；［驚きを表して］なんと！；［遺憾，不満，苛立ち；非難・咎めを表して］ほんとうに，いいかげん（に）；［相手の言ったことに対して，相手の計画等の変更を促して］（…ということなのですが，それでもあなたは…するのですか？）；［間投詞的に用いられて，いらだち，非難，没頭など様々な感情を表す（特に話しことばにおいて）］あのねえ！，いいかい！，いやはや！，やれやれ！，これは驚いた！ ") {
        "altså [副] [ˈal’sɔ, ˈαl’sɔ]: すなわち，それゆえに，したがって，つまり，ようするに；〔話し手の心的態度を表す文副詞〕［意味を強めて］ほんとうに，まったく；［驚きを表して］なんと！；［遺憾，不満，苛立ち；非難・咎めを表して］ほんとうに，いいかげん（に）；［相手の言ったことに対して，相手の計画等の変更を促して］（…ということなのですが，それでもあなたは…するのですか？）；［間投詞的に用いられて，いらだち，非難，没頭など様々な感情を表す（特に話しことばにおいて）］あのねえ！，いいかい！，いやはや！，やれやれ！，これは驚いた！ "
    } else if str_eq(s, "Amager [固] [ˈαˌmα;] アマー［地名：コペンハーゲン南部の島．Kastrup空港がある］． ") {
        "Amager [固] [ˈαˌmα;]: アマー［地名：コペンハーゲン南部の島．Kastrup空港がある］． "
    } else if str_eq(s, "Amaliegade [固] [aˈmȧ;ljənˌgȧ:ðə] アメーリェゲーゼ［通り：コペンハーゲン］． ") {
        "Amaliegade [固] [aˈmȧ;ljənˌgȧ:ðə]: アメーリェゲーゼ［通り：コペンハーゲン］． "
    } else if str_eq(s, "Amalienborg [固] [aˈmȧ;ljənˌbɑ\u{30a}’] アメーリェンボー［王宮：コペンハーゲン］． ") {
        "Amalienborg [固] [aˈmȧ;ljənˌbɑ\u{30a}’]: アメーリェンボー［王宮：コペンハーゲン］． "
    } else if str_eq(s, "De [ˈdi, di] [代] [ˈdi, di], Dem [ˈdæm, dæm], Deres [ˈdȧɹɔs, ˈdȧ:ɔs, dȧɔs]:［人称代名詞２人称単数・複数］［フォーマルな関係の人に対して用いる］あなた，あなた方． ") {
        "De [代] [ˈdi, di], Dem [ˈdæm, dæm], Deres [ˈdȧɹɔs, ˈdȧ:ɔs, dȧɔs]:［人称代名詞２人称単数・複数］［フォーマルな関係の人に対して用いる］あなた，あなた方． "
    } else if str_eq(s, "de [ˈdi, di] [代] [ˈdi, di], dem [ˈdæm, dæm], deres [ˈdȧɹɔs, ˈdȧ:ɔs, dȧɔs]:［人称代名詞３人称複数］彼ら，彼女ら，それら；［不定代名詞］(一般の)人々，みんな；権威，当局；［指示代名詞］［人・動物・もの・ことを指して］あれら(の)，それら(の)；(…する・である)人たち・もの． ") {
        "de [代] [ˈdi, di], dem [ˈdæm, dæm], deres [ˈdȧɹɔs, ˈdȧ:ɔs, dȧɔs]:［人称代名詞３人称複数］彼ら，彼女ら，それら；［不定代名詞］(一般の)人々，みんな；権威，当局；［指示代名詞］［人・動物・もの・ことを指して］あれら(の)，それら(の)；(…する・である)人たち・もの． "
    } else if str_eq(s, "den1 [ˈdæn’, dæn] [代] [ˈdæn’, dæn], dens [ˈdæn(’)s, dæns], det [ˈde, de],  dets [ˈdæds, dæds], de [ˈdi, di], dem [ˈdæm, dæm], deres [ˈdȧɹɔs, ˈdȧ:ɔs, dȧɔs]:［人称代名詞３人称］［すでに述べた動物・もの・ことに参照して］それ；［指示代名詞］［人・動物・もの・ことを指して］あれ，それ；あの，その；前者の；前者． ") {
        "den1 [代] [ˈdæn’, dæn], dens [ˈdæn(’)s, dæns], det [ˈde, de],  dets [ˈdæds, dæds], de [ˈdi, di], dem [ˈdæm, dæm], deres [ˈdȧɹɔs, ˈdȧ:ɔs, dȧɔs]:［人称代名詞３人称］［すでに述べた動物・もの・ことに参照して］それ；［指示代名詞］［人・動物・もの・ことを指して］あれ，それ；あの，その；前者の；前者． "
    } else if str_eq(s, "en2 [数] [ˈe;n] et [ˈed]: 一，1つ，1人，1個 ") {
        "en2 [数] [ˈe;n], et [ˈed]: 一，1つ，1人，1個 "
    } else if str_eq(s, "firsindstyvende [数] [ˈfiɹ’sənsˈty:vənə] 第八十番目の． ") {
        "firsindstyvende [数] [ˈfiɹ’sənsˈty:vənə]: 第八十番目の． "
    } else if str_eq(s, "Frederiksborg Slot [固] [fræðrægsˈbɑ\u{30a};ˈslɔd] フレズレクスボー城［北シェランにある城］ ") {
        "Frederiksborg Slot [固] [fræðrægsˈbɑ\u{30a};ˈslɔd]: フレズレクスボー城［北シェランにある城］ "
    } else if str_eq(s, "græker [名] [ˈgræ;gɔ], grækeren [ˈgræ;gɔɔn], grækere [ˈgræ;gɔɔ],  grækerne [ˈgræ;gɔnə], ギリシア人 ") {
        "græker [名] [ˈgræ;gɔ], grækeren [ˈgræ;gɔɔn], grækere [ˈgræ;gɔɔ],  grækerne [ˈgræ;gɔnə]: ギリシア人 "
    } else if str_eq(s, "halvfemsindstyvende [数] [halˈfæm’sənsˈty:vənə, halˈfæm’sənsˈty:wənə] 第九十番目の． ") {
        "halvfemsindstyvende [数] [halˈfæm’sənsˈty:vənə, halˈfæm’sənsˈty:wənə]: 第九十番目の． "
    } else if str_eq(s, "halvfjerdsindstyvende [数] [halˈfjȧɹsənsˈty:vənə, halˈfjȧɹsənsˈty:wənə] 第七十番目の． ") {
        "halvfjerdsindstyvende [数] [halˈfjȧɹsənsˈty:vənə, halˈfjȧɹsənsˈty:wənə]: 第七十番目の． "
    } else if str_eq(s, "halvtredsindstyvende [数] [ˈtræsənsˈty:vənə, ˈtræsənsˈty:wənə] 第五十番目の． ") {
        "halvtredsindstyvende [数] [ˈtræsənsˈty:vənə, ˈtræsənsˈty:wənə]: 第五十番目の． "
    } else if str_eq(s, "have1 [名] [ˈhȧ:və, ˈhȧ:wə], haven [[ˈhȧ:vən, ˈhȧ:wən], haver [ˈhȧ:vɔ, ˈhȧ:wɔ],  haverne [ˈhȧ:vɔnə, ˈhȧ:wɔnə]: 庭，庭園，公園． ") {
        "have1 [名] [ˈhȧ:və, ˈhȧ:wə], haven [ˈhȧ:vən, ˈhȧ:wən], haver [ˈhȧ:vɔ, ˈhȧ:wɔ],  haverne [ˈhȧ:vɔnə, ˈhȧ:wɔnə]: 庭，庭園，公園． "
    } else if str_eq(s, "hof [名] [ˈhɔf] en, hoffer [ˈhɔfɔ]: デンマークのビール会社カールスベア社 (Carlsberg) のラガービールの愛称． ") {
        "hof [名] [ˈhɔf] en, hoffer [ˈhɔfɔ]: デンマークのビール会社カールスベア社 (Carlsberg) のラガービールの愛称． "
    } else if str_eq(s, "hun [代] [ˈhun, hun] hende [ˈhenə, henə], hendes [ˈhenəs, henəs]:［人称代名詞３人称単数女性］彼女． ") {
        "hun [代] [ˈhun, hun], hende [ˈhenə, henə], hendes [ˈhenəs, henəs]:［人称代名詞３人称単数女性］彼女． "
    } else if str_eq(s, "hvem [代] [ˈvæm’],［所有格］hvis [ˈves]:［疑問代名詞］誰・どの人・どんな人(が・を・に)；［関係代名詞］［人を表す先行詞を受けて］…するところの(人)［現在では，この用法では，hvemが関係節中の主語になることはない］；［先行詞を含む不定関係代名詞］(…する)だれでも，どんな人でも． ") {
        "hvem [代] [ˈvæm’], hvis [ˈves]:［疑問代名詞］誰・どの人・どんな人(が・を・に)；［関係代名詞］［人を表す先行詞を受けて］…するところの(人)［現在では，この用法では，hvemが関係節中の主語になることはない］；［先行詞を含む不定関係代名詞］(…する)だれでも，どんな人でも． "
    } else if str_eq(s, "jeg [代] [ˈjα(ᒑ), jα(ᒑ)] mig [ˈmαᒑ, mα(ᒑ)]:［人称代名詞１人称単数］私，僕． ") {
        "jeg [代] [ˈjα(ᒑ), jα(ᒑ)], mig [ˈmαᒑ, mα(ᒑ)]:［人称代名詞１人称単数］私，僕． "
    } else if str_eq(s, "klejne [名] [ˈklαᒑnə], klejnen [名] [ˈklαᒑnən], klejner [ˈklαᒑnɔ], klejner [ˈklαᒑnɔnə]: クライネ（特にクリスマスの時期に食する，ねじりドーナッツ）． ") {
        "klejne [名] [ˈklαᒑnə], klejnen [ˈklαᒑnən], klejner [ˈklαᒑnɔ], klejner [ˈklαᒑnɔnə]: クライネ（特にクリスマスの時期に食する，ねじりドーナッツ）． "
    } else if str_eq(s, "knuse [動] [ˈknu:sə], knuser [ˈknu;sɔ], knuste [ˈknu:sdə], knust [ˈknu;sd],  knusende [ˈknu:sənə], knus\u{f022} [ˈknu;s]: 壊す，こなごなにする，砕く． ") {
        "knuse [動] [ˈknu:sə], knuser [ˈknu;sɔ], knuste [ˈknu:sdə], knust [ˈknu;sd],  knusende [ˈknu:sənə], knus! [ˈknu;s]: 壊す，こなごなにする，砕く． "
    } else if str_eq(s, "lille [形] [ˈlilə]［性，既知/未知を問わず，名詞の単数形とともに］, små [små;] [性，既知/未知を問わず，名詞の複数形とともに]，mindre [ˈmendrɔ], mindst [ˈmen’sd], mindste [ˈmen’sdə]: 小さな． ") {
        "lille [形] [ˈlilə], små [små;], mindre [ˈmendrɔ], mindst [ˈmen’sd], mindste [ˈmen’sdə]: 小さな． "
    } else if str_eq(s, "Louisiana [固] [luisiˈana] ルイスィアナ美術館［北シェランのホムレベク(Humlebæk) にある美術館］． ") {
        "Louisiana [固] [luisiˈana]: ルイスィアナ美術館［北シェランのホムレベク(Humlebæk) にある美術館］． "
    } else if str_eq(s, "O.k. [間] [ˈåwˈkæᒑ]/[ˈo;ˈkå;]: OK，了解，わかりました ") {
        "O.k. [間] [ˈåwˈkæᒑ, ˈo;ˈkå;]: OK，了解，わかりました "
    } else if str_eq(s, "Samsø [固] [ˈsαmˌsø;] サムスー島． ") {
        "Samsø [固] [ˈsαmˌsø;]: サムスー島． "
    } else if str_eq(s, "snitte [動] [ˈsnidə], snitter [ˈsnidɔ], snittede [ˈsnidəðə], snittet [ˈsnidəð],  snittende [ˈsnidənə], snit!] [ˈsnid]: (木などを)ナイフで少し削る；彫る，刻む；細かく・薄く切る． ") {
        "snitte [動] [ˈsnidə], snitter [ˈsnidɔ], snittede [ˈsnidəðə], snittet [ˈsnidəð],  snittende [ˈsnidənə], snit! [ˈsnid]: (木などを)ナイフで少し削る；彫る，刻む；細かく・薄く切る． "
    } else if str_eq(s, "spændende [形] [ˈsbænənə] [不変化], , mere spændende, mest spændende: 面白い；わくわくする；スリリングな． ") {
        "spændende [形] [ˈsbænənə] [不変化], mere spændende, mest spændende: 面白い；わくわくする；スリリングな． "
    } else if str_eq(s, "tuborg [名] [ˈtuˌbɑ;] en, tuborg [ˈtuˌbɑ;]: かつてはビール会社トゥボー社が生産し，現在はカールスベア社が生産しているラガービールgrøm tuborgの愛称． ") {
        "tuborg [名] [ˈtuˌbɑ;] en, tuborg [ˈtuˌbɑ;]: かつてはビール会社トゥボー社が生産し，現在はカールスベア社が生産しているラガービールgrøm tuborgの愛称． "
    } else if str_eq(s, "varm [形] [ˈvα;m], varmt [ˈvα;md], varme [ˈvα:mə], varmere [ˈvα:mɔɔ],  varmest [ˈvα:məsd], varmeste [ˈvα:məsdə];温かい，暖かい；やや暑い；熱い；思いやりのある，心のこもった． ") {
        "varm [形] [ˈvα;m], varmt [ˈvα;md], varme [ˈvα:mə], varmere [ˈvα:mɔɔ],  varmest [ˈvα:məsd], varmeste [ˈvα:məsdə]: 温かい，暖かい；やや暑い；熱い；思いやりのある，心のこもった． "
    } else if str_eq(s, "vid [形] [ˈvi;ð], vidt [ˈvid], vide [形] [ˈvi:ðə], videre [ˈvi:ðɔɔ, videst [ˈvi:ðəsd],  videste [ˈvi:ðəsdə]: 広い，広大な，広々とした；遠い，遠く離れた． ") {
        "vid [形] [ˈvi;ð], vidt [ˈvid], vide [ˈvi:ðə], videre [ˈvi:ðɔɔ], videst [ˈvi:ðəsd],  videste [ˈvi:ðəsdə]: 広い，広大な，広々とした；遠い，遠く離れた． "
    } else if str_eq(s, "øre1 [名] [ˈø:ɔ], øret [ˈø:ɔð], ører [ˈø:ɔ](/øren [ˈø:ɔn]), ørerne [ˈø:ɔnə]: 耳． ") {
        "øre1 [名] [ˈø:ɔ], øret [ˈø:ɔð], ører [ˈø:ɔ]/øren [ˈø:ɔn], ørerne [ˈø:ɔnə]: 耳． "
    } else {
        s
    }
}

/// Every corrected string is a fixed point of the correction: no value
/// of the table is a key, except two entries whose value equals their own
/// key.
#[verifier::rlimit(100)]
#[verifier::spinoff_prover]
proof fn lemma_patch_table_facts()
    ensures
        spec_patch("altså [副] [ˈal’sɔ, ˈαl’sɔ]: すなわち，それゆえに，したがって，つまり，ようするに；〔話し手の心的態度を表す文副詞〕［意味を強めて］ほんとうに，まったく；［驚きを表して］なんと！；［遺憾，不満，苛立ち；非難・咎めを表して］ほんとうに，いいかげん（に）；［相手の言ったことに対して，相手の計画等の変更を促して］（…ということなのですが，それでもあなたは…するのですか？）；［間投詞的に用いられて，いらだち，非難，没頭など様々な感情を表す（特に話しことばにおいて）］あのねえ！，いいかい！，いやはや！，やれやれ！，これは驚いた！ "@) == "altså [副] [ˈal’sɔ, ˈαl’sɔ]: すなわち，それゆえに，したがって，つまり，ようするに；〔話し手の心的態度を表す文副詞〕［意味を強めて］ほんとうに，まったく；［驚きを表して］なんと！；［遺憾，不満，苛立ち；非難・咎めを表して］ほんとうに，いいかげん（に）；［相手の言ったことに対して，相手の計画等の変更を促して］（…ということなのですが，それでもあなたは…するのですか？）；［間投詞的に用いられて，いらだち，非難，没頭など様々な感情を表す（特に話しことばにおいて）］あのねえ！，いいかい！，いやはや！，やれやれ！，これは驚いた！ "@,
        spec_patch("Amager [固] [ˈαˌmα;]: アマー［地名：コペンハーゲン南部の島．Kastrup空港がある］． "@) == "Amager [固] [ˈαˌmα;]: アマー［地名：コペンハーゲン南部の島．Kastrup空港がある］． "@,
        spec_patch("Amaliegade [固] [aˈmȧ;ljənˌgȧ:ðə]: アメーリェゲーゼ［通り：コペンハーゲン］． "@) == "Amaliegade [固] [aˈmȧ;ljənˌgȧ:ðə]: アメーリェゲーゼ［通り：コペンハーゲン］． "@,
        spec_patch("Amalienborg [固] [aˈmȧ;ljənˌbɑ\u{30a}’]: アメーリェンボー［王宮：コペンハーゲン］． "@) == "Amalienborg [固] [aˈmȧ;ljənˌbɑ\u{30a}’]: アメーリェンボー［王宮：コペンハーゲン］． "@,
        spec_patch("De [代] [ˈdi, di], Dem [ˈdæm, dæm], Deres [ˈdȧɹɔs, ˈdȧ:ɔs, dȧɔs]:［人称代名詞２人称単数・複数］［フォーマルな関係の人に対して用いる］あなた，あなた方． "@) == "De [代] [ˈdi, di], Dem [ˈdæm, dæm], Deres [ˈdȧɹɔs, ˈdȧ:ɔs, dȧɔs]:［人称代名詞２人称単数・複数］［フォーマルな関係の人に対して用いる］あなた，あなた方． "@,
        spec_patch("de [代] [ˈdi, di], dem [ˈdæm, dæm], deres [ˈdȧɹɔs, ˈdȧ:ɔs, dȧɔs]:［人称代名詞３人称複数］彼ら，彼女ら，それら；［不定代名詞］(一般の)人々，みんな；権威，当局；［指示代名詞］［人・動物・もの・ことを指して］あれら(の)，それら(の)；(…する・である)人たち・もの． "@) == "de [代] [ˈdi, di], dem [ˈdæm, dæm], deres [ˈdȧɹɔs, ˈdȧ:ɔs, dȧɔs]:［人称代名詞３人称複数］彼ら，彼女ら，それら；［不定代名詞］(一般の)人々，みんな；権威，当局；［指示代名詞］［人・動物・もの・ことを指して］あれら(の)，それら(の)；(…する・である)人たち・もの． "@,
        spec_patch("den1 [代] [ˈdæn’, dæn], dens [ˈdæn(’)s, dæns], det [ˈde, de],  dets [ˈdæds, dæds], de [ˈdi, di], dem [ˈdæm, dæm], deres [ˈdȧɹɔs, ˈdȧ:ɔs, dȧɔs]:［人称代名詞３人称］［すでに述べた動物・もの・ことに参照して］それ；［指示代名詞］［人・動物・もの・ことを指して］あれ，それ；あの，その；前者の；前者． "@) == "den1 [代] [ˈdæn’, dæn], dens [ˈdæn(’)s, dæns], det [ˈde, de],  dets [ˈdæds, dæds], de [ˈdi, di], dem [ˈdæm, dæm], deres [ˈdȧɹɔs, ˈdȧ:ɔs, dȧɔs]:［人称代名詞３人称］［すでに述べた動物・もの・ことに参照して］それ；［指示代名詞］［人・動物・もの・ことを指して］あれ，それ；あの，その；前者の；前者． "@,
        spec_patch("en2 [数] [ˈe;n], et [ˈed]: 一，1つ，1人，1個 "@) == "en2 [数] [ˈe;n], et [ˈed]: 一，1つ，1人，1個 "@,
        spec_patch("firsindstyvende [数] [ˈfiɹ’sənsˈty:vənə]: 第八十番目の． "@) == "firsindstyvende [数] [ˈfiɹ’sənsˈty:vənə]: 第八十番目の． "@,
        spec_patch("Frederiksborg Slot [固] [fræðrægsˈbɑ\u{30a};ˈslɔd]: フレズレクスボー城［北シェランにある城］ "@) == "Frederiksborg Slot [固] [fræðrægsˈbɑ\u{30a};ˈslɔd]: フレズレクスボー城［北シェランにある城］ "@,
        spec_patch("græker [名] [ˈgræ;gɔ], grækeren [ˈgræ;gɔɔn], grækere [ˈgræ;gɔɔ],  grækerne [ˈgræ;gɔnə]: ギリシア人 "@) == "græker [名] [ˈgræ;gɔ], grækeren [ˈgræ;gɔɔn], grækere [ˈgræ;gɔɔ],  grækerne [ˈgræ;gɔnə]: ギリシア人 "@,
        spec_patch("halvfemsindstyvende [数] [halˈfæm’sənsˈty:vənə, halˈfæm’sənsˈty:wənə]: 第九十番目の． "@) == "halvfemsindstyvende [数] [halˈfæm’sənsˈty:vənə, halˈfæm’sənsˈty:wənə]: 第九十番目の． "@,
        spec_patch("halvfjerdsindstyvende [数] [halˈfjȧɹsənsˈty:vənə, halˈfjȧɹsənsˈty:wənə]: 第七十番目の． "@) == "halvfjerdsindstyvende [数] [halˈfjȧɹsənsˈty:vənə, halˈfjȧɹsənsˈty:wənə]: 第七十番目の． "@,
        spec_patch("halvtredsindstyvende [数] [ˈtræsənsˈty:vənə, ˈtræsənsˈty:wənə]: 第五十番目の． "@) == "halvtredsindstyvende [数] [ˈtræsənsˈty:vənə, ˈtræsənsˈty:wənə]: 第五十番目の． "@,
        spec_patch("have1 [名] [ˈhȧ:və, ˈhȧ:wə], haven [ˈhȧ:vən, ˈhȧ:wən], haver [ˈhȧ:vɔ, ˈhȧ:wɔ],  haverne [ˈhȧ:vɔnə, ˈhȧ:wɔnə]: 庭，庭園，公園． "@) == "have1 [名] [ˈhȧ:və, ˈhȧ:wə], haven [ˈhȧ:vən, ˈhȧ:wən], haver [ˈhȧ:vɔ, ˈhȧ:wɔ],  haverne [ˈhȧ:vɔnə, ˈhȧ:wɔnə]: 庭，庭園，公園． "@,
        spec_patch("hof [名] [ˈhɔf] en, hoffer [ˈhɔfɔ]: デンマークのビール会社カールスベア社 (Carlsberg) のラガービールの愛称． "@) == "hof [名] [ˈhɔf] en, hoffer [ˈhɔfɔ]: デンマークのビール会社カールスベア社 (Carlsberg) のラガービールの愛称． "@,
        spec_patch("hun [代] [ˈhun, hun], hende [ˈhenə, henə], hendes [ˈhenəs, henəs]:［人称代名詞３人称単数女性］彼女． "@) == "hun [代] [ˈhun, hun], hende [ˈhenə, henə], hendes [ˈhenəs, henəs]:［人称代名詞３人称単数女性］彼女． "@,
        spec_patch("hvem [代] [ˈvæm’], hvis [ˈves]:［疑問代名詞］誰・どの人・どんな人(が・を・に)；［関係代名詞］［人を表す先行詞を受けて］…するところの(人)［現在では，この用法では，hvemが関係節中の主語になることはない］；［先行詞を含む不定関係代名詞］(…する)だれでも，どんな人でも． "@) == "hvem [代] [ˈvæm’], hvis [ˈves]:［疑問代名詞］誰・どの人・どんな人(が・を・に)；［関係代名詞］［人を表す先行詞を受けて］…するところの(人)［現在では，この用法では，hvemが関係節中の主語になることはない］；［先行詞を含む不定関係代名詞］(…する)だれでも，どんな人でも． "@,
        spec_patch("jeg [代] [ˈjα(ᒑ), jα(ᒑ)], mig [ˈmαᒑ, mα(ᒑ)]:［人称代名詞１人称単数］私，僕． "@) == "jeg [代] [ˈjα(ᒑ), jα(ᒑ)], mig [ˈmαᒑ, mα(ᒑ)]:［人称代名詞１人称単数］私，僕． "@,
        spec_patch("klejne [名] [ˈklαᒑnə], klejnen [ˈklαᒑnən], klejner [ˈklαᒑnɔ], klejner [ˈklαᒑnɔnə]: クライネ（特にクリスマスの時期に食する，ねじりドーナッツ）． "@) == "klejne [名] [ˈklαᒑnə], klejnen [ˈklαᒑnən], klejner [ˈklαᒑnɔ], klejner [ˈklαᒑnɔnə]: クライネ（特にクリスマスの時期に食する，ねじりドーナッツ）． "@,
        spec_patch("knuse [動] [ˈknu:sə], knuser [ˈknu;sɔ], knuste [ˈknu:sdə], knust [ˈknu;sd],  knusende [ˈknu:sənə], knus! [ˈknu;s]: 壊す，こなごなにする，砕く． "@) == "knuse [動] [ˈknu:sə], knuser [ˈknu;sɔ], knuste [ˈknu:sdə], knust [ˈknu;sd],  knusende [ˈknu:sənə], knus! [ˈknu;s]: 壊す，こなごなにする，砕く． "@,
        spec_patch("lille [形] [ˈlilə], små [små;], mindre [ˈmendrɔ], mindst [ˈmen’sd], mindste [ˈmen’sdə]: 小さな． "@) == "lille [形] [ˈlilə], små [små;], mindre [ˈmendrɔ], mindst [ˈmen’sd], mindste [ˈmen’sdə]: 小さな． "@,
        spec_patch("Louisiana [固] [luisiˈana]: ルイスィアナ美術館［北シェランのホムレベク(Humlebæk) にある美術館］． "@) == "Louisiana [固] [luisiˈana]: ルイスィアナ美術館［北シェランのホムレベク(Humlebæk) にある美術館］． "@,
        spec_patch("O.k. [間] [ˈåwˈkæᒑ, ˈo;ˈkå;]: OK，了解，わかりました "@) == "O.k. [間] [ˈåwˈkæᒑ, ˈo;ˈkå;]: OK，了解，わかりました "@,
        spec_patch("Samsø [固] [ˈsαmˌsø;]: サムスー島． "@) == "Samsø [固] [ˈsαmˌsø;]: サムスー島． "@,
        spec_patch("snitte [動] [ˈsnidə], snitter [ˈsnidɔ], snittede [ˈsnidəðə], snittet [ˈsnidəð],  snittende [ˈsnidənə], snit! [ˈsnid]: (木などを)ナイフで少し削る；彫る，刻む；細かく・薄く切る． "@) == "snitte [動] [ˈsnidə], snitter [ˈsnidɔ], snittede [ˈsnidəðə], snittet [ˈsnidəð],  snittende [ˈsnidənə], snit! [ˈsnid]: (木などを)ナイフで少し削る；彫る，刻む；細かく・薄く切る． "@,
        spec_patch("spændende [形] [ˈsbænənə] [不変化], mere spændende, mest spændende: 面白い；わくわくする；スリリングな． "@) == "spændende [形] [ˈsbænənə] [不変化], mere spændende, mest spændende: 面白い；わくわくする；スリリングな． "@,
        spec_patch("tuborg [名] [ˈtuˌbɑ;] en, tuborg [ˈtuˌbɑ;]: かつてはビール会社トゥボー社が生産し，現在はカールスベア社が生産しているラガービールgrøm tuborgの愛称． "@) == "tuborg [名] [ˈtuˌbɑ;] en, tuborg [ˈtuˌbɑ;]: かつてはビール会社トゥボー社が生産し，現在はカールスベア社が生産しているラガービールgrøm tuborgの愛称． "@,
        spec_patch("varm [形] [ˈvα;m], varmt [ˈvα;md], varme [ˈvα:mə], varmere [ˈvα:mɔɔ],  varmest [ˈvα:məsd], varmeste [ˈvα:məsdə]: 温かい，暖かい；やや暑い；熱い；思いやりのある，心のこもった． "@) == "varm [形] [ˈvα;m], varmt [ˈvα;md], varme [ˈvα:mə], varmere [ˈvα:mɔɔ],  varmest [ˈvα:məsd], varmeste [ˈvα:məsdə]: 温かい，暖かい；やや暑い；熱い；思いやりのある，心のこもった． "@,
        spec_patch("vid [形] [ˈvi;ð], vidt [ˈvid], vide [ˈvi:ðə], videre [ˈvi:ðɔɔ], videst [ˈvi:ðəsd],  videste [ˈvi:ðəsdə]: 広い，広大な，広々とした；遠い，遠く離れた． "@) == "vid [形] [ˈvi;ð], vidt [ˈvid], vide [ˈvi:ðə], videre [ˈvi:ðɔɔ], videst [ˈvi:ðəsd],  videste [ˈvi:ðəsdə]: 広い，広大な，広々とした；遠い，遠く離れた． "@,
        spec_patch("øre1 [名] [ˈø:ɔ], øret [ˈø:ɔð], ører [ˈø:ɔ]/øren [ˈø:ɔn], ørerne [ˈø:ɔnə]: 耳． "@) == "øre1 [名] [ˈø:ɔ], øret [ˈø:ɔð], ører [ˈø:ɔ]/øren [ˈø:ɔn], ørerne [ˈø:ɔnə]: 耳． "@,
{
    reveal_strlit("altså [副] [ˈal’sɔ, ˈαl’sɔ] すなわち，それゆえに，したがって，つまり，ようするに；〔話し手の心的態度を表す文副詞〕［意味を強めて］ほんとうに，まったく；［驚きを表して］なんと！；［遺憾，不満，苛立ち；非難・咎めを表して］ほんとうに，いいかげん（に）；［相手の言ったことに対して，相手の計画等の変更を促して］（…ということなのですが，それでもあなたは…するのですか？）；［間投詞的に用いられて，いらだち，非難，没頭など様々な感情を表す（特に話しことばにおいて）］あのねえ！，いいかい！，いやはや！，やれやれ！，これは驚いた！ ");
    reveal_strlit("altså [副] [ˈal’sɔ, ˈαl’sɔ]: すなわち，それゆえに，したがって，つまり，ようするに；〔話し手の心的態度を表す文副詞〕［意味を強めて］ほんとうに，まったく；［驚きを表して］なんと！；［遺憾，不満，苛立ち；非難・咎めを表して］ほんとうに，いいかげん（に）；［相手の言ったことに対して，相手の計画等の変更を促して］（…ということなのですが，それでもあなたは…するのですか？）；［間投詞的に用いられて，いらだち，非難，没頭など様々な感情を表す（特に話しことばにおいて）］あのねえ！，いいかい！，いやはや！，やれやれ！，これは驚いた！ ");
    reveal_strlit("Amager [固] [ˈαˌmα;] アマー［地名：コペンハーゲン南部の島．Kastrup空港がある］． ");
    reveal_strlit("Amager [固] [ˈαˌmα;]: アマー［地名：コペンハーゲン南部の島．Kastrup空港がある］． ");
    reveal_strlit("Amaliegade [固] [aˈmȧ;ljənˌgȧ:ðə] アメーリェゲーゼ［通り：コペンハーゲン］． ");
    reveal_strlit("Amaliegade [固] [aˈmȧ;ljənˌgȧ:ðə]: アメーリェゲーゼ［通り：コペンハーゲン］． ");
    reveal_strlit("Amalienborg [固] [aˈmȧ;ljənˌbɑ\u{30a}’] アメーリェンボー［王宮：コペンハーゲン］． ");
    reveal_strlit("Amalienborg [固] [aˈmȧ;ljənˌbɑ\u{30a}’]: アメーリェンボー［王宮：コペンハーゲン］． ");
    reveal_strlit("De [ˈdi, di] [代] [ˈdi, di], Dem [ˈdæm, dæm], Deres [ˈdȧɹɔs, ˈdȧ:ɔs, dȧɔs]:［人称代名詞２人称単数・複数］［フォーマルな関係の人に対して用いる］あなた，あなた方． ");
    reveal_strlit("De [代] [ˈdi, di], Dem [ˈdæm, dæm], Deres [ˈdȧɹɔs, ˈdȧ:ɔs, dȧɔs]:［人称代名詞２人称単数・複数］［フォーマルな関係の人に対して用いる］あなた，あなた方． ");
    reveal_strlit("de [ˈdi, di] [代] [ˈdi, di], dem [ˈdæm, dæm], deres [ˈdȧɹɔs, ˈdȧ:ɔs, dȧɔs]:［人称代名詞３人称複数］彼ら，彼女ら，それら；［不定代名詞］(一般の)人々，みんな；権威，当局；［指示代名詞］［人・動物・もの・ことを指して］あれら(の)，それら(の)；(…する・である)人たち・もの． ");
    reveal_strlit("de [代] [ˈdi, di], dem [ˈdæm, dæm], deres [ˈdȧɹɔs, ˈdȧ:ɔs, dȧɔs]:［人称代名詞３人称複数］彼ら，彼女ら，それら；［不定代名詞］(一般の)人々，みんな；権威，当局；［指示代名詞］［人・動物・もの・ことを指して］あれら(の)，それら(の)；(…する・である)人たち・もの． ");
    reveal_strlit("den1 [ˈdæn’, dæn] [代] [ˈdæn’, dæn], dens [ˈdæn(’)s, dæns], det [ˈde, de],  dets [ˈdæds, dæds], de [ˈdi, di], dem [ˈdæm, dæm], deres [ˈdȧɹɔs, ˈdȧ:ɔs, dȧɔs]:［人称代名詞３人称］［すでに述べた動物・もの・ことに参照して］それ；［指示代名詞］［人・動物・もの・ことを指して］あれ，それ；あの，その；前者の；前者． ");
    reveal_strlit("den1 [代] [ˈdæn’, dæn], dens [ˈdæn(’)s, dæns], det [ˈde, de],  dets [ˈdæds, dæds], de [ˈdi, di], dem [ˈdæm, dæm], deres [ˈdȧɹɔs, ˈdȧ:ɔs, dȧɔs]:［人称代名詞３人称］［すでに述べた動物・もの・ことに参照して］それ；［指示代名詞］［人・動物・もの・ことを指して］あれ，それ；あの，その；前者の；前者． ");
    reveal_strlit("en2 [数] [ˈe;n] et [ˈed]: 一，1つ，1人，1個 ");
    reveal_strlit("en2 [数] [ˈe;n], et [ˈed]: 一，1つ，1人，1個 ");
    reveal_strlit("firsindstyvende [数] [ˈfiɹ’sənsˈty:vənə] 第八十番目の． ");
    reveal_strlit("firsindstyvende [数] [ˈfiɹ’sənsˈty:vənə]: 第八十番目の． ");
    reveal_strlit("Frederiksborg Slot [固] [fræðrægsˈbɑ\u{30a};ˈslɔd] フレズレクスボー城［北シェランにある城］ ");
    reveal_strlit("Frederiksborg Slot [固] [fræðrægsˈbɑ\u{30a};ˈslɔd]: フレズレクスボー城［北シェランにある城］ ");
    reveal_strlit("græker [名] [ˈgræ;gɔ], grækeren [ˈgræ;gɔɔn], grækere [ˈgræ;gɔɔ],  grækerne [ˈgræ;gɔnə], ギリシア人 ");
    reveal_strlit("græker [名] [ˈgræ;gɔ], grækeren [ˈgræ;gɔɔn], grækere [ˈgræ;gɔɔ],  grækerne [ˈgræ;gɔnə]: ギリシア人 ");
    reveal_strlit("halvfemsindstyvende [数] [halˈfæm’sənsˈty:vənə, halˈfæm’sənsˈty:wənə] 第九十番目の． ");
    reveal_strlit("halvfemsindstyvende [数] [halˈfæm’sənsˈty:vənə, halˈfæm’sənsˈty:wənə]: 第九十番目の． ");
    reveal_strlit("halvfjerdsindstyvende [数] [halˈfjȧɹsənsˈty:vənə, halˈfjȧɹsənsˈty:wənə] 第七十番目の． ");
    reveal_strlit("halvfjerdsindstyvende [数] [halˈfjȧɹsənsˈty:vənə, halˈfjȧɹsənsˈty:wənə]: 第七十番目の． ");
    reveal_strlit("halvtredsindstyvende [数] [ˈtræsənsˈty:vənə, ˈtræsənsˈty:wənə] 第五十番目の． ");
    reveal_strlit("halvtredsindstyvende [数] [ˈtræsənsˈty:vənə, ˈtræsənsˈty:wənə]: 第五十番目の． ");
    reveal_strlit("have1 [名] [ˈhȧ:və, ˈhȧ:wə], haven [[ˈhȧ:vən, ˈhȧ:wən], haver [ˈhȧ:vɔ, ˈhȧ:wɔ],  haverne [ˈhȧ:vɔnə, ˈhȧ:wɔnə]: 庭，庭園，公園． ");
    reveal_strlit("have1 [名] [ˈhȧ:və, ˈhȧ:wə], haven [ˈhȧ:vən, ˈhȧ:wən], haver [ˈhȧ:vɔ, ˈhȧ:wɔ],  haverne [ˈhȧ:vɔnə, ˈhȧ:wɔnə]: 庭，庭園，公園． ");
    reveal_strlit("hof [名] [ˈhɔf] en, hoffer [ˈhɔfɔ]: デンマークのビール会社カールスベア社 (Carlsberg) のラガービールの愛称． ");
    reveal_strlit("hof [名] [ˈhɔf] en, hoffer [ˈhɔfɔ]: デンマークのビール会社カールスベア社 (Carlsberg) のラガービールの愛称． ");
    reveal_strlit("hun [代] [ˈhun, hun] hende [ˈhenə, henə], hendes [ˈhenəs, henəs]:［人称代名詞３人称単数女性］彼女． ");
    reveal_strlit("hun [代] [ˈhun, hun], hende [ˈhenə, henə], hendes [ˈhenəs, henəs]:［人称代名詞３人称単数女性］彼女． ");
    reveal_strlit("hvem [代] [ˈvæm’],［所有格］hvis [ˈves]:［疑問代名詞］誰・どの人・どんな人(が・を・に)；［関係代名詞］［人を表す先行詞を受けて］…するところの(人)［現在では，この用法では，hvemが関係節中の主語になることはない］；［先行詞を含む不定関係代名詞］(…する)だれでも，どんな人でも． ");
    reveal_strlit("hvem [代] [ˈvæm’], hvis [ˈves]:［疑問代名詞］誰・どの人・どんな人(が・を・に)；［関係代名詞］［人を表す先行詞を受けて］…するところの(人)［現在では，この用法では，hvemが関係節中の主語になることはない］；［先行詞を含む不定関係代名詞］(…する)だれでも，どんな人でも． ");
    reveal_strlit("jeg [代] [ˈjα(ᒑ), jα(ᒑ)] mig [ˈmαᒑ, mα(ᒑ)]:［人称代名詞１人称単数］私，僕． ");
    reveal_strlit("jeg [代] [ˈjα(ᒑ), jα(ᒑ)], mig [ˈmαᒑ, mα(ᒑ)]:［人称代名詞１人称単数］私，僕． ");
    reveal_strlit("klejne [名] [ˈklαᒑnə], klejnen [名] [ˈklαᒑnən], klejner [ˈklαᒑnɔ], klejner [ˈklαᒑnɔnə]: クライネ（特にクリスマスの時期に食する，ねじりドーナッツ）． ");
    reveal_strlit("klejne [名] [ˈklαᒑnə], klejnen [ˈklαᒑnən], klejner [ˈklαᒑnɔ], klejner [ˈklαᒑnɔnə]: クライネ（特にクリスマスの時期に食する，ねじりドーナッツ）． ");
    reveal_strlit("knuse [動] [ˈknu:sə], knuser [ˈknu;sɔ], knuste [ˈknu:sdə], knust [ˈknu;sd],  knusende [ˈknu:sənə], knus\u{f022} [ˈknu;s]: 壊す，こなごなにする，砕く． ");
    reveal_strlit("knuse [動] [ˈknu:sə], knuser [ˈknu;sɔ], knuste [ˈknu:sdə], knust [ˈknu;sd],  knusende [ˈknu:sənə], knus! [ˈknu;s]: 壊す，こなごなにする，砕く． ");
    reveal_strlit("lille [形] [ˈlilə]［性，既知/未知を問わず，名詞の単数形とともに］, små [små;] [性，既知/未知を問わず，名詞の複数形とともに]，mindre [ˈmendrɔ], mindst [ˈmen’sd], mindste [ˈmen’sdə]: 小さな． ");
    reveal_strlit("lille [形] [ˈlilə], små [små;], mindre [ˈmendrɔ], mindst [ˈmen’sd], mindste [ˈmen’sdə]: 小さな． ");
    reveal_strlit("Louisiana [固] [luisiˈana] ルイスィアナ美術館［北シェランのホムレベク(Humlebæk) にある美術館］． ");
    reveal_strlit("Louisiana [固] [luisiˈana]: ルイスィアナ美術館［北シェランのホムレベク(Humlebæk) にある美術館］． ");
    reveal_strlit("O.k. [間] [ˈåwˈkæᒑ]/[ˈo;ˈkå;]: OK，了解，わかりました ");
    reveal_strlit("O.k. [間] [ˈåwˈkæᒑ, ˈo;ˈkå;]: OK，了解，わかりました ");
    reveal_strlit("Samsø [固] [ˈsαmˌsø;] サムスー島． ");
    reveal_strlit("Samsø [固] [ˈsαmˌsø;]: サムスー島． ");
    reveal_strlit("snitte [動] [ˈsnidə], snitter [ˈsnidɔ], snittede [ˈsnidəðə], snittet [ˈsnidəð],  snittende [ˈsnidənə], snit!] [ˈsnid]: (木などを)ナイフで少し削る；彫る，刻む；細かく・薄く切る． ");
    reveal_strlit("snitte [動] [ˈsnidə], snitter [ˈsnidɔ], snittede [ˈsnidəðə], snittet [ˈsnidəð],  snittende [ˈsnidənə], snit! [ˈsnid]: (木などを)ナイフで少し削る；彫る，刻む；細かく・薄く切る． ");
    reveal_strlit("spændende [形] [ˈsbænənə] [不変化], , mere spændende, mest spændende: 面白い；わくわくする；スリリングな． ");
    reveal_strlit("spændende [形] [ˈsbænənə] [不変化], mere spændende, mest spændende: 面白い；わくわくする；スリリングな． ");
    reveal_strlit("tuborg [名] [ˈtuˌbɑ;] en, tuborg [ˈtuˌbɑ;]: かつてはビール会社トゥボー社が生産し，現在はカールスベア社が生産しているラガービールgrøm tuborgの愛称． ");
    reveal_strlit("tuborg [名] [ˈtuˌbɑ;] en, tuborg [ˈtuˌbɑ;]: かつてはビール会社トゥボー社が生産し，現在はカールスベア社が生産しているラガービールgrøm tuborgの愛称． ");
    reveal_strlit("varm [形] [ˈvα;m], varmt [ˈvα;md], varme [ˈvα:mə], varmere [ˈvα:mɔɔ],  varmest [ˈvα:məsd], varmeste [ˈvα:məsdə];温かい，暖かい；やや暑い；熱い；思いやりのある，心のこもった． ");
    reveal_strlit("varm [形] [ˈvα;m], varmt [ˈvα;md], varme [ˈvα:mə], varmere [ˈvα:mɔɔ],  varmest [ˈvα:məsd], varmeste [ˈvα:məsdə]: 温かい，暖かい；やや暑い；熱い；思いやりのある，心のこもった． ");
    reveal_strlit("vid [形] [ˈvi;ð], vidt [ˈvid], vide [形] [ˈvi:ðə], videre [ˈvi:ðɔɔ, videst [ˈvi:ðəsd],  videste [ˈvi:ðəsdə]: 広い，広大な，広々とした；遠い，遠く離れた． ");
    reveal_strlit("vid [形] [ˈvi;ð], vidt [ˈvid], vide [ˈvi:ðə], videre [ˈvi:ðɔɔ], videst [ˈvi:ðəsd],  videste [ˈvi:ðəsdə]: 広い，広大な，広々とした；遠い，遠く離れた． ");
    reveal_strlit("øre1 [名] [ˈø:ɔ], øret [ˈø:ɔð], ører [ˈø:ɔ](/øren [ˈø:ɔn]), ørerne [ˈø:ɔnə]: 耳． ");
    reveal_strlit("øre1 [名] [ˈø:ɔ], øret [ˈø:ɔð], ører [ˈø:ɔ]/øren [ˈø:ɔn], ørerne [ˈø:ɔnə]: 耳． ");
    assert("altså [副] [ˈal’sɔ, ˈαl’sɔ] すなわち，それゆえに，したがって，つまり，ようするに；〔話し手の心的態度を表す文副詞〕［意味を強めて］ほんとうに，まったく；［驚きを表して］なんと！；［遺憾，不満，苛立ち；非難・咎めを表して］ほんとうに，いいかげん（に）；［相手の言ったことに対して，相手の計画等の変更を促して］（…ということなのですが，それでもあなたは…するのですか？）；［間投詞的に用いられて，いらだち，非難，没頭など様々な感情を表す（特に話しことばにおいて）］あのねえ！，いいかい！，いやはや！，やれやれ！，これは驚いた！ "@.len() == 275);
    assert("altså [副] [ˈal’sɔ, ˈαl’sɔ]: すなわち，それゆえに，したがって，つまり，ようするに；〔話し手の心的態度を表す文副詞〕［意味を強めて］ほんとうに，まったく；［驚きを表して］なんと！；［遺憾，不満，苛立ち；非難・咎めを表して］ほんとうに，いいかげん（に）；［相手の言ったことに対して，相手の計画等の変更を促して］（…ということなのですが，それでもあなたは…するのですか？）；［間投詞的に用いられて，いらだち，非難，没頭など様々な感情を表す（特に話しことばにおいて）］あのねえ！，いいかい！，いやはや！，やれやれ！，これは驚いた！ "@.len() == 276);
    assert("Amager [固] [ˈαˌmα;] アマー［地名：コペンハーゲン南部の島．Kastrup空港がある］． "@.len() == 54);
    assert("Amager [固] [ˈαˌmα;]: アマー［地名：コペンハーゲン南部の島．Kastrup空港がある］． "@.len() == 55);
    assert("Amaliegade [固] [aˈmȧ;ljənˌgȧ:ðə] アメーリェゲーゼ［通り：コペンハーゲン］． "@.len() == 55);
    assert("Amaliegade [固] [aˈmȧ;ljənˌgȧ:ðə]: アメーリェゲーゼ［通り：コペンハーゲン］． "@.len() == 56);
    assert("Amalienborg [固] [aˈmȧ;ljənˌbɑ\u{30a}’] アメーリェンボー［王宮：コペンハーゲン］． "@.len() == 55);
    assert("Amalienborg [固] [aˈmȧ;ljənˌbɑ\u{30a}’]: アメーリェンボー［王宮：コペンハーゲン］． "@.len() == 56);
    assert("De [ˈdi, di] [代] [ˈdi, di], Dem [ˈdæm, dæm], Deres [ˈdȧɹɔs, ˈdȧ:ɔs, dȧɔs]:［人称代名詞２人称単数・複数］［フォーマルな関係の人に対して用いる］あなた，あなた方． "@.len() == 118);
    assert("De [代] [ˈdi, di], Dem [ˈdæm, dæm], Deres [ˈdȧɹɔs, ˈdȧ:ɔs, dȧɔs]:［人称代名詞２人称単数・複数］［フォーマルな関係の人に対して用いる］あなた，あなた方． "@.len() == 108);
    assert("de [ˈdi, di] [代] [ˈdi, di], dem [ˈdæm, dæm], deres [ˈdȧɹɔs, ˈdȧ:ɔs, dȧɔs]:［人称代名詞３人称複数］彼ら，彼女ら，それら；［不定代名詞］(一般の)人々，みんな；権威，当局；［指示代名詞］［人・動物・もの・ことを指して］あれら(の)，それら(の)；(…する・である)人たち・もの． "@.len() == 176);
    assert("de [代] [ˈdi, di], dem [ˈdæm, dæm], deres [ˈdȧɹɔs, ˈdȧ:ɔs, dȧɔs]:［人称代名詞３人称複数］彼ら，彼女ら，それら；［不定代名詞］(一般の)人々，みんな；権威，当局；［指示代名詞］［人・動物・もの・ことを指して］あれら(の)，それら(の)；(…する・である)人たち・もの． "@.len() == 166);
    assert("den1 [ˈdæn’, dæn] [代] [ˈdæn’, dæn], dens [ˈdæn(’)s, dæns], det [ˈde, de],  dets [ˈdæds, dæds], de [ˈdi, di], dem [ˈdæm, dæm], deres [ˈdȧɹɔs, ˈdȧ:ɔs, dȧɔs]:［人称代名詞３人称］［すでに述べた動物・もの・ことに参照して］それ；［指示代名詞］［人・動物・もの・ことを指して］あれ，それ；あの，その；前者の；前者． "@.len() == 232);
    assert("den1 [代] [ˈdæn’, dæn], dens [ˈdæn(’)s, dæns], det [ˈde, de],  dets [ˈdæds, dæds], de [ˈdi, di], dem [ˈdæm, dæm], deres [ˈdȧɹɔs, ˈdȧ:ɔs, dȧɔs]:［人称代名詞３人称］［すでに述べた動物・もの・ことに参照して］それ；［指示代名詞］［人・動物・もの・ことを指して］あれ，それ；あの，その；前者の；前者． "@.len() == 219);
    assert("en2 [数] [ˈe;n] et [ˈed]: 一，1つ，1人，1個 "@.len() == 36);
    assert("en2 [数] [ˈe;n], et [ˈed]: 一，1つ，1人，1個 "@.len() == 37);
    assert("firsindstyvende [数] [ˈfiɹ’sənsˈty:vənə] 第八十番目の． "@.len() == 48);
    assert("firsindstyvende [数] [ˈfiɹ’sənsˈty:vənə]: 第八十番目の． "@.len() == 49);
    assert("Frederiksborg Slot [固] [fræðrægsˈbɑ\u{30a};ˈslɔd] フレズレクスボー城［北シェランにある城］ "@.len() == 65);
    assert("Frederiksborg Slot [固] [fræðrægsˈbɑ\u{30a};ˈslɔd]: フレズレクスボー城［北シェランにある城］ "@.len() == 66);
    assert("græker [名] [ˈgræ;gɔ], grækeren [ˈgræ;gɔɔn], grækere [ˈgræ;gɔɔ],  grækerne [ˈgræ;gɔnə], ギリシア人 "@.len() == 93);
    assert("græker [名] [ˈgræ;gɔ], grækeren [ˈgræ;gɔɔn], grækere [ˈgræ;gɔɔ],  grækerne [ˈgræ;gɔnə]: ギリシア人 "@.len() == 93);
    assert("halvfemsindstyvende [数] [halˈfæm’sənsˈty:vənə, halˈfæm’sənsˈty:wənə] 第九十番目の． "@.len() == 77);
    assert("halvfemsindstyvende [数] [halˈfæm’sənsˈty:vənə, halˈfæm’sənsˈty:wənə]: 第九十番目の． "@.len() == 78);
    assert("halvfjerdsindstyvende [数] [halˈfjȧɹsənsˈty:vənə, halˈfjȧɹsənsˈty:wənə] 第七十番目の． "@.len() == 79);
    assert("halvfjerdsindstyvende [数] [halˈfjȧɹsənsˈty:vənə, halˈfjȧɹsənsˈty:wənə]: 第七十番目の． "@.len() == 80);
    assert("halvtredsindstyvende [数] [ˈtræsənsˈty:vənə, ˈtræsənsˈty:wənə] 第五十番目の． "@.len() == 70);
    assert("halvtredsindstyvende [数] [ˈtræsənsˈty:vənə, ˈtræsənsˈty:wənə]: 第五十番目の． "@.len() == 71);
    assert("have1 [名] [ˈhȧ:və, ˈhȧ:wə], haven [[ˈhȧ:vən, ˈhȧ:wən], haver [ˈhȧ:vɔ, ˈhȧ:wɔ],  haverne [ˈhȧ:vɔnə, ˈhȧ:wɔnə]: 庭，庭園，公園． "@.len() == 119);
    assert("have1 [名] [ˈhȧ:və, ˈhȧ:wə], haven [ˈhȧ:vən, ˈhȧ:wən], haver [ˈhȧ:vɔ, ˈhȧ:wɔ],  haverne [ˈhȧ:vɔnə, ˈhȧ:wɔnə]: 庭，庭園，公園． "@.len() == 118);
    assert("hof [名] [ˈhɔf] en, hoffer [ˈhɔfɔ]: デンマークのビール会社カールスベア社 (Carlsberg) のラガービールの愛称． "@.len() == 78);
    assert("hof [名] [ˈhɔf] en, hoffer [ˈhɔfɔ]: デンマークのビール会社カールスベア社 (Carlsberg) のラガービールの愛称． "@.len() == 78);
    assert("hun [代] [ˈhun, hun] hende [ˈhenə, henə], hendes [ˈhenəs, henəs]:［人称代名詞３人称単数女性］彼女． "@.len() == 82);
    assert("hun [代] [ˈhun, hun], hende [ˈhenə, henə], hendes [ˈhenəs, henəs]:［人称代名詞３人称単数女性］彼女． "@.len() == 83);
    assert("hvem [代] [ˈvæm’],［所有格］hvis [ˈves]:［疑問代名詞］誰・どの人・どんな人(が・を・に)；［関係代名詞］［人を表す先行詞を受けて］…するところの(人)［現在では，この用法では，hvemが関係節中の主語になることはない］；［先行詞を含む不定関係代名詞］(…する)だれでも，どんな人でも． "@.len() == 157);
    assert("hvem [代] [ˈvæm’], hvis [ˈves]:［疑問代名詞］誰・どの人・どんな人(が・を・に)；［関係代名詞］［人を表す先行詞を受けて］…するところの(人)［現在では，この用法では，hvemが関係節中の主語になることはない］；［先行詞を含む不定関係代名詞］(…する)だれでも，どんな人でも． "@.len() == 153);
    assert("jeg [代] [ˈjα(ᒑ), jα(ᒑ)] mig [ˈmαᒑ, mα(ᒑ)]:［人称代名詞１人称単数］私，僕． "@.len() == 59);
    assert("jeg [代] [ˈjα(ᒑ), jα(ᒑ)], mig [ˈmαᒑ, mα(ᒑ)]:［人称代名詞１人称単数］私，僕． "@.len() == 60);
    assert("klejne [名] [ˈklαᒑnə], klejnen [名] [ˈklαᒑnən], klejner [ˈklαᒑnɔ], klejner [ˈklαᒑnɔnə]: クライネ（特にクリスマスの時期に食する，ねじりドーナッツ）． "@.len() == 117);
    assert("klejne [名] [ˈklαᒑnə], klejnen [ˈklαᒑnən], klejner [ˈklαᒑnɔ], klejner [ˈklαᒑnɔnə]: クライネ（特にクリスマスの時期に食する，ねじりドーナッツ）． "@.len() == 113);
    assert("knuse [動] [ˈknu:sə], knuser [ˈknu;sɔ], knuste [ˈknu:sdə], knust [ˈknu;sd],  knusende [ˈknu:sənə], knus\u{f022} [ˈknu;s]: 壊す，こなごなにする，砕く． "@.len() == 129);
    assert("knuse [動] [ˈknu:sə], knuser [ˈknu;sɔ], knuste [ˈknu:sdə], knust [ˈknu;sd],  knusende [ˈknu:sənə], knus! [ˈknu;s]: 壊す，こなごなにする，砕く． "@.len() == 129);
    assert("lille [形] [ˈlilə]［性，既知/未知を問わず，名詞の単数形とともに］, små [små;] [性，既知/未知を問わず，名詞の複数形とともに]，mindre [ˈmendrɔ], mindst [ˈmen’sd], mindste [ˈmen’sdə]: 小さな． "@.len() == 140);
    assert("lille [形] [ˈlilə], små [små;], mindre [ˈmendrɔ], mindst [ˈmen’sd], mindste [ˈmen’sdə]: 小さな． "@.len() == 92);
    assert("Louisiana [固] [luisiˈana] ルイスィアナ美術館［北シェランのホムレベク(Humlebæk) にある美術館］． "@.len() == 67);
    assert("Louisiana [固] [luisiˈana]: ルイスィアナ美術館［北シェランのホムレベク(Humlebæk) にある美術館］． "@.len() == 68);
    assert("O.k. [間] [ˈåwˈkæᒑ]/[ˈo;ˈkå;]: OK，了解，わかりました "@.len() == 43);
    assert("O.k. [間] [ˈåwˈkæᒑ, ˈo;ˈkå;]: OK，了解，わかりました "@.len() == 42);
    assert("Samsø [固] [ˈsαmˌsø;] サムスー島． "@.len() == 28);
    assert("Samsø [固] [ˈsαmˌsø;]: サムスー島． "@.len() == 29);
    assert("snitte [動] [ˈsnidə], snitter [ˈsnidɔ], snittede [ˈsnidəðə], snittet [ˈsnidəð],  snittende [ˈsnidənə], snit!] [ˈsnid]: (木などを)ナイフで少し削る；彫る，刻む；細かく・薄く切る． "@.len() == 149);
    assert("snitte [動] [ˈsnidə], snitter [ˈsnidɔ], snittede [ˈsnidəðə], snittet [ˈsnidəð],  snittende [ˈsnidənə], snit! [ˈsnid]: (木などを)ナイフで少し削る；彫る，刻む；細かく・薄く切る． "@.len() == 148);
    assert("spændende [形] [ˈsbænənə] [不変化], , mere spændende, mest spændende: 面白い；わくわくする；スリリングな． "@.len() == 85);
    assert("spændende [形] [ˈsbænənə] [不変化], mere spændende, mest spændende: 面白い；わくわくする；スリリングな． "@.len() == 83);
    assert("tuborg [名] [ˈtuˌbɑ;] en, tuborg [ˈtuˌbɑ;]: かつてはビール会社トゥボー社が生産し，現在はカールスベア社が生産しているラガービールgrøm tuborgの愛称． "@.len() == 101);
    assert("tuborg [名] [ˈtuˌbɑ;] en, tuborg [ˈtuˌbɑ;]: かつてはビール会社トゥボー社が生産し，現在はカールスベア社が生産しているラガービールgrøm tuborgの愛称． "@.len() == 101);
    assert("varm [形] [ˈvα;m], varmt [ˈvα;md], varme [ˈvα:mə], varmere [ˈvα:mɔɔ],  varmest [ˈvα:məsd], varmeste [ˈvα:məsdə];温かい，暖かい；やや暑い；熱い；思いやりのある，心のこもった． "@.len() == 143);
    assert("varm [形] [ˈvα;m], varmt [ˈvα;md], varme [ˈvα:mə], varmere [ˈvα:mɔɔ],  varmest [ˈvα:məsd], varmeste [ˈvα:məsdə]: 温かい，暖かい；やや暑い；熱い；思いやりのある，心のこもった． "@.len() == 144);
    assert("vid [形] [ˈvi;ð], vidt [ˈvid], vide [形] [ˈvi:ðə], videre [ˈvi:ðɔɔ, videst [ˈvi:ðəsd],  videste [ˈvi:ðəsdə]: 広い，広大な，広々とした；遠い，遠く離れた． "@.len() == 130);
    assert("vid [形] [ˈvi;ð], vidt [ˈvid], vide [ˈvi:ðə], videre [ˈvi:ðɔɔ], videst [ˈvi:ðəsd],  videste [ˈvi:ðəsdə]: 広い，広大な，広々とした；遠い，遠く離れた． "@.len() == 127);
    assert("øre1 [名] [ˈø:ɔ], øret [ˈø:ɔð], ører [ˈø:ɔ](/øren [ˈø:ɔn]), ørerne [ˈø:ɔnə]: 耳． "@.len() == 79);
    assert("øre1 [名] [ˈø:ɔ], øret [ˈø:ɔð], ører [ˈø:ɔ]/øren [ˈø:ɔn], ørerne [ˈø:ɔnə]: 耳． "@.len() == 77);
    assert("Amager [固] [ˈαˌmα;]: アマー［地名：コペンハーゲン南部の島．Kastrup空港がある］． "@[3] == 'g');
    assert("Amaliegade [固] [aˈmȧ;ljənˌgȧ:ðə] アメーリェゲーゼ［通り：コペンハーゲン］． "@[3] == 'l');
    assert("Amager [固] [ˈαˌmα;]: アマー［地名：コペンハーゲン南部の島．Kastrup空港がある］． "@[3] == 'g');
    assert("Amalienborg [固] [aˈmȧ;ljənˌbɑ\u{30a}’] アメーリェンボー［王宮：コペンハーゲン］． "@[3] == 'l');
    assert("græker [名] [ˈgræ;gɔ], grækeren [ˈgræ;gɔɔn], grækere [ˈgræ;gɔɔ],  grækerne [ˈgræ;gɔnə]: ギリシア人 "@[85] == ':');
    assert("græker [名] [ˈgræ;gɔ], grækeren [ˈgræ;gɔɔn], grækere [ˈgræ;gɔɔ],  grækerne [ˈgræ;gɔnə], ギリシア人 "@[85] == ',');
    assert("halvfemsindstyvende [数] [halˈfæm’sənsˈty:vənə, halˈfæm’sənsˈty:wənə]: 第九十番目の． "@[1] == 'a');
    assert("hof [名] [ˈhɔf] en, hoffer [ˈhɔfɔ]: デンマークのビール会社カールスベア社 (Carlsberg) のラガービールの愛称． "@[1] == 'o');
    assert("have1 [名] [ˈhȧ:və, ˈhȧ:wə], haven [ˈhȧ:vən, ˈhȧ:wən], haver [ˈhȧ:vɔ, ˈhȧ:wɔ],  haverne [ˈhȧ:vɔnə, ˈhȧ:wɔnə]: 庭，庭園，公園． "@[0] == 'h');
    assert("De [ˈdi, di] [代] [ˈdi, di], Dem [ˈdæm, dæm], Deres [ˈdȧɹɔs, ˈdȧ:ɔs, dȧɔs]:［人称代名詞２人称単数・複数］［フォーマルな関係の人に対して用いる］あなた，あなた方． "@[0] == 'D');
    assert("knuse [動] [ˈknu:sə], knuser [ˈknu;sɔ], knuste [ˈknu:sdə], knust [ˈknu;sd],  knusende [ˈknu:sənə], knus! [ˈknu;s]: 壊す，こなごなにする，砕く． "@[102] == '!');
    assert("knuse [動] [ˈknu:sə], knuser [ˈknu;sɔ], knuste [ˈknu:sdə], knust [ˈknu;sd],  knusende [ˈknu:sənə], knus\u{f022} [ˈknu;s]: 壊す，こなごなにする，砕く． "@[102] == '\u{f022}');
    assert("øre1 [名] [ˈø:ɔ], øret [ˈø:ɔð], ører [ˈø:ɔ]/øren [ˈø:ɔn], ørerne [ˈø:ɔnə]: 耳． "@[0] == '\u{f8}');
    assert("halvfemsindstyvende [数] [halˈfæm’sənsˈty:vənə, halˈfæm’sənsˈty:wənə] 第九十番目の． "@[0] == 'h');
}

/// Applying the correction to an already-corrected string changes
/// nothing: no corrected string is a key that maps elsewhere.
pub proof fn lemma_patch_idempotent(s: Seq<char>)
    ensures
        spec_patch(spec_patch(s)) == spec_patch(s),
{
    lemma_patch_table_facts();
}

/// The correction table itself, as key/value pairs in lookup order.
pub fn corrections() -> (r: Vec<(&'static str, &'static str)>)
    ensures
        r@.len() == 31,
        (r@[0].0)@ == "altså [副] [ˈal’sɔ, ˈαl’sɔ] すなわち，それゆえに，したがって，つまり，ようするに；〔話し手の心的態度を表す文副詞〕［意味を強めて］ほんとうに，まったく；［驚きを表して］なんと！；［遺憾，不満，苛立ち；非難・咎めを表して］ほんとうに，いいかげん（に）；［相手の言ったことに対して，相手の計画等の変更を促して］（…ということなのですが，それでもあなたは…するのですか？）；［間投詞的に用いられて，いらだち，非難，没頭など様々な感情を表す（特に話しことばにおいて）］あのねえ！，いいかい！，いやはや！，やれやれ！，これは驚いた！ "@ && (r@[0].1)@ == "altså [副] [ˈal’sɔ, ˈαl’sɔ]: すなわち，それゆえに，したがって，つまり，ようするに；〔話し手の心的態度を表す文副詞〕［意味を強めて］ほんとうに，まったく；［驚きを表して］なんと！；［遺憾，不満，苛立ち；非難・咎めを表して］ほんとうに，いいかげん（に）；［相手の言ったことに対して，相手の計画等の変更を促して］（…ということなのですが，それでもあなたは…するのですか？）；［間投詞的に用いられて，いらだち，非難，没頭など様々な感情を表す（特に話しことばにおいて）］あのねえ！，いいかい！，いやはや！，やれやれ！，これは驚いた！ "@,
        (r@[1].0)@ == "Amager [固] [ˈαˌmα;] アマー［地名：コペンハーゲン南部の島．Kastrup空港がある］． "@ && (r@[1].1)@ == "Amager [固] [ˈαˌmα;]: アマー［地名：コペンハーゲン南部の島．Kastrup空港がある］． "@,
        (r@[2].0)@ == "Amaliegade [固] [aˈmȧ;ljənˌgȧ:ðə] アメーリェゲーゼ［通り：コペンハーゲン］． "@ && (r@[2].1)@ == "Amaliegade [固] [aˈmȧ;ljənˌgȧ:ðə]: アメーリェゲーゼ［通り：コペンハーゲン］． "@,
        (r@[3].0)@ == "Amalienborg [固] [aˈmȧ;ljənˌbɑ\u{30a}’] アメーリェンボー［王宮：コペンハーゲン］． "@ && (r@[3].1)@ == "Amalienborg [固] [aˈmȧ;ljənˌbɑ\u{30a}’]: アメーリェンボー［王宮：コペンハーゲン］． "@,
        (r@[4].0)@ == "De [ˈdi, di] [代] [ˈdi, di], Dem [ˈdæm, dæm], Deres [ˈdȧɹɔs, ˈdȧ:ɔs, dȧɔs]:［人称代名詞２人称単数・複数］［フォーマルな関係の人に対して用いる］あなた，あなた方． "@ && (r@[4].1)@ == "De [代] [ˈdi, di], Dem [ˈdæm, dæm], Deres [ˈdȧɹɔs, ˈdȧ:ɔs, dȧɔs]:［人称代名詞２人称単数・複数］［フォーマルな関係の人に対して用いる］あなた，あなた方． "@,
        (r@[5].0)@ == "de [ˈdi, di] [代] [ˈdi, di], dem [ˈdæm, dæm], deres [ˈdȧɹɔs, ˈdȧ:ɔs, dȧɔs]:［人称代名詞３人称複数］彼ら，彼女ら，それら；［不定代名詞］(一般の)人々，みんな；権威，当局；［指示代名詞］［人・動物・もの・ことを指して］あれら(の)，それら(の)；(…する・である)人たち・もの． "@ && (r@[5].1)@ == "de [代] [ˈdi, di], dem [ˈdæm, dæm], deres [ˈdȧɹɔs, ˈdȧ:ɔs, dȧɔs]:［人称代名詞３人称複数］彼ら，彼女ら，それら；［不定代名詞］(一般の)人々，みんな；権威，当局；［指示代名詞］［人・動物・もの・ことを指して］あれら(の)，それら(の)；(…する・である)人たち・もの． "@,
        (r@[6].0)@ == "den1 [ˈdæn’, dæn] [代] [ˈdæn’, dæn], dens [ˈdæn(’)s, dæns], det [ˈde, de],  dets [ˈdæds, dæds], de [ˈdi, di], dem [ˈdæm, dæm], deres [ˈdȧɹɔs, ˈdȧ:ɔs, dȧɔs]:［人称代名詞３人称］［すでに述べた動物・もの・ことに参照して］それ；［指示代名詞］［人・動物・もの・ことを指して］あれ，それ；あの，その；前者の；前者． "@ && (r@[6].1)@ == "den1 [代] [ˈdæn’, dæn], dens [ˈdæn(’)s, dæns], det [ˈde, de],  dets [ˈdæds, dæds], de [ˈdi, di], dem [ˈdæm, dæm], deres [ˈdȧɹɔs, ˈdȧ:ɔs, dȧɔs]:［人称代名詞３人称］［すでに述べた動物・もの・ことに参照して］それ；［指示代名詞］［人・動物・もの・ことを指して］あれ，それ；あの，その；前者の；前者． "@,
        (r@[7].0)@ == "en2 [数] [ˈe;n] et [ˈed]: 一，1つ，1人，1個 "@ && (r@[7].1)@ == "en2 [数] [ˈe;n], et [ˈed]: 一，1つ，1人，1個 "@,
        (r@[8].0)@ == "firsindstyvende [数] [ˈfiɹ’sənsˈty:vənə] 第八十番目の． "@ && (r@[8].1)@ == "firsindstyvende [数] [ˈfiɹ’sənsˈty:vənə]: 第八十番目の． "@,
        (r@[9].0)@ == "Frederiksborg Slot [固] [fræðrægsˈbɑ\u{30a};ˈslɔd] フレズレクスボー城［北シェランにある城］ "@ && (r@[9].1)@ == "Frederiksborg Slot [固] [fræðrægsˈbɑ\u{30a};ˈslɔd]: フレズレクスボー城［北シェランにある城］ "@,
        (r@[10].0)@ == "græker [名] [ˈgræ;gɔ], grækeren [ˈgræ;gɔɔn], grækere [ˈgræ;gɔɔ],  grækerne [ˈgræ;gɔnə], ギリシア人 "@ && (r@[10].1)@ == "græker [名] [ˈgræ;gɔ], grækeren [ˈgræ;gɔɔn], grækere [ˈgræ;gɔɔ],  grækerne [ˈgræ;gɔnə]: ギリシア人 "@,
        (r@[11].0)@ == "halvfemsindstyvende [数] [halˈfæm’sənsˈty:vənə, halˈfæm’sənsˈty:wənə] 第九十番目の． "@ && (r@[11].1)@ == "halvfemsindstyvende [数] [halˈfæm’sənsˈty:vənə, halˈfæm’sənsˈty:wənə]: 第九十番目の． "@,
        (r@[12].0)@ == "halvfjerdsindstyvende [数] [halˈfjȧɹsənsˈty:vənə, halˈfjȧɹsənsˈty:wənə] 第七十番目の． "@ && (r@[12].1)@ == "halvfjerdsindstyvende [数] [halˈfjȧɹsənsˈty:vənə, halˈfjȧɹsənsˈty:wənə]: 第七十番目の． "@,
        (r@[13].0)@ == "halvtredsindstyvende [数] [ˈtræsənsˈty:vənə, ˈtræsənsˈty:wənə] 第五十番目の． "@ && (r@[13].1)@ == "halvtredsindstyvende [数] [ˈtræsənsˈty:vənə, ˈtræsənsˈty:wənə]: 第五十番目の． "@,
        (r@[14].0)@ == "have1 [名] [ˈhȧ:və, ˈhȧ:wə], haven [[ˈhȧ:vən, ˈhȧ:wən], haver [ˈhȧ:vɔ, ˈhȧ:wɔ],  haverne [ˈhȧ:vɔnə, ˈhȧ:wɔnə]: 庭，庭園，公園． "@ && (r@[14].1)@ == "have1 [名] [ˈhȧ:və, ˈhȧ:wə], haven [ˈhȧ:vən, ˈhȧ:wən], haver [ˈhȧ:vɔ, ˈhȧ:wɔ],  haverne [ˈhȧ:vɔnə, ˈhȧ:wɔnə]: 庭，庭園，公園． "@,
        (r@[15].0)@ == "hof [名] [ˈhɔf] en, hoffer [ˈhɔfɔ]: デンマークのビール会社カールスベア社 (Carlsberg) のラガービールの愛称． "@ && (r@[15].1)@ == "hof [名] [ˈhɔf] en, hoffer [ˈhɔfɔ]: デンマークのビール会社カールスベア社 (Carlsberg) のラガービールの愛称． "@,
        (r@[16].0)@ == "hun [代] [ˈhun, hun] hende [ˈhenə, henə], hendes [ˈhenəs, henəs]:［人称代名詞３人称単数女性］彼女． "@ && (r@[16].1)@ == "hun [代] [ˈhun, hun], hende [ˈhenə, henə], hendes [ˈhenəs, henəs]:［人称代名詞３人称単数女性］彼女． "@,
        (r@[17].0)@ == "hvem [代] [ˈvæm’],［所有格］hvis [ˈves]:［疑問代名詞］誰・どの人・どんな人(が・を・に)；［関係代名詞］［人を表す先行詞を受けて］…するところの(人)［現在では，この用法では，hvemが関係節中の主語になることはない］；［先行詞を含む不定関係代名詞］(…する)だれでも，どんな人でも． "@ && (r@[17].1)@ == "hvem [代] [ˈvæm’], hvis [ˈves]:［疑問代名詞］誰・どの人・どんな人(が・を・に)；［関係代名詞］［人を表す先行詞を受けて］…するところの(人)［現在では，この用法では，hvemが関係節中の主語になることはない］；［先行詞を含む不定関係代名詞］(…する)だれでも，どんな人でも． "@,
        (r@[18].0)@ == "jeg [代] [ˈjα(ᒑ), jα(ᒑ)] mig [ˈmαᒑ, mα(ᒑ)]:［人称代名詞１人称単数］私，僕． "@ && (r@[18].1)@ == "jeg [代] [ˈjα(ᒑ), jα(ᒑ)], mig [ˈmαᒑ, mα(ᒑ)]:［人称代名詞１人称単数］私，僕． "@,
        (r@[19].0)@ == "klejne [名] [ˈklαᒑnə], klejnen [名] [ˈklαᒑnən], klejner [ˈklαᒑnɔ], klejner [ˈklαᒑnɔnə]: クライネ（特にクリスマスの時期に食する，ねじりドーナッツ）． "@ && (r@[19].1)@ == "klejne [名] [ˈklαᒑnə], klejnen [ˈklαᒑnən], klejner [ˈklαᒑnɔ], klejner [ˈklαᒑnɔnə]: クライネ（特にクリスマスの時期に食する，ねじりドーナッツ）． "@,
        (r@[20].0)@ == "knuse [動] [ˈknu:sə], knuser [ˈknu;sɔ], knuste [ˈknu:sdə], knust [ˈknu;sd],  knusende [ˈknu:sənə], knus\u{f022} [ˈknu;s]: 壊す，こなごなにする，砕く． "@ && (r@[20].1)@ == "knuse [動] [ˈknu:sə], knuser [ˈknu;sɔ], knuste [ˈknu:sdə], knust [ˈknu;sd],  knusende [ˈknu:sənə], knus! [ˈknu;s]: 壊す，こなごなにする，砕く． "@,
        (r@[21].0)@ == "lille [形] [ˈlilə]［性，既知/未知を問わず，名詞の単数形とともに］, små [små;] [性，既知/未知を問わず，名詞の複数形とともに]，mindre [ˈmendrɔ], mindst [ˈmen’sd], mindste [ˈmen’sdə]: 小さな． "@ && (r@[21].1)@ == "lille [形] [ˈlilə], små [små;], mindre [ˈmendrɔ], mindst [ˈmen’sd], mindste [ˈmen’sdə]: 小さな． "@,
        (r@[22].0)@ == "Louisiana [固] [luisiˈana] ルイスィアナ美術館［北シェランのホムレベク(Humlebæk) にある美術館］． "@ && (r@[22].1)@ == "Louisiana [固] [luisiˈana]: ルイスィアナ美術館［北シェランのホムレベク(Humlebæk) にある美術館］． "@,
        (r@[23].0)@ == "O.k. [間] [ˈåwˈkæᒑ]/[ˈo;ˈkå;]: OK，了解，わかりました "@ && (r@[23].1)@ == "O.k. [間] [ˈåwˈkæᒑ, ˈo;ˈkå;]: OK，了解，わかりました "@,
        (r@[24].0)@ == "Samsø [固] [ˈsαmˌsø;] サムスー島． "@ && (r@[24].1)@ == "Samsø [固] [ˈsαmˌsø;]: サムスー島． "@,
        (r@[25].0)@ == "snitte [動] [ˈsnidə], snitter [ˈsnidɔ], snittede [ˈsnidəðə], snittet [ˈsnidəð],  snittende [ˈsnidənə], snit!] [ˈsnid]: (木などを)ナイフで少し削る；彫る，刻む；細かく・薄く切る． "@ && (r@[25].1)@ == "snitte [動] [ˈsnidə], snitter [ˈsnidɔ], snittede [ˈsnidəðə], snittet [ˈsnidəð],  snittende [ˈsnidənə], snit! [ˈsnid]: (木などを)ナイフで少し削る；彫る，刻む；細かく・薄く切る． "@,
        (r@[26].0)@ == "spændende [形] [ˈsbænənə] [不変化], , mere spændende, mest spændende: 面白い；わくわくする；スリリングな． "@ && (r@[26].1)@ == "spændende [形] [ˈsbænənə] [不変化], mere spændende, mest spændende: 面白い；わくわくする；スリリングな． "@,
        (r@[27].0)@ == "tuborg [名] [ˈtuˌbɑ;] en, tuborg [ˈtuˌbɑ;]: かつてはビール会社トゥボー社が生産し，現在はカールスベア社が生産しているラガービールgrøm tuborgの愛称． "@ && (r@[27].1)@ == "tuborg [名] [ˈtuˌbɑ;] en, tuborg [ˈtuˌbɑ;]: かつてはビール会社トゥボー社が生産し，現在はカールスベア社が生産しているラガービールgrøm tuborgの愛称． "@,
        (r@[28].0)@ == "varm [形] [ˈvα;m], varmt [ˈvα;md], varme [ˈvα:mə], varmere [ˈvα:mɔɔ],  varmest [ˈvα:məsd], varmeste [ˈvα:məsdə];温かい，暖かい；やや暑い；熱い；思いやりのある，心のこもった． "@ && (r@[28].1)@ == "varm [形] [ˈvα;m], varmt [ˈvα;md], varme [ˈvα:mə], varmere [ˈvα:mɔɔ],  varmest [ˈvα:məsd], varmeste [ˈvα:məsdə]: 温かい，暖かい；やや暑い；熱い；思いやりのある，心のこもった． "@,
        (r@[29].0)@ == "vid [形] [ˈvi;ð], vidt [ˈvid], vide [形] [ˈvi:ðə], videre [ˈvi:ðɔɔ, videst [ˈvi:ðəsd],  videste [ˈvi:ðəsdə]: 広い，広大な，広々とした；遠い，遠く離れた． "@ && (r@[29].1)@ == "vid [形] [ˈvi;ð], vidt [ˈvid], vide [ˈvi:ðə], videre [ˈvi:ðɔɔ], videst [ˈvi:ðəsd],  videste [ˈvi:ðəsdə]: 広い，広大な，広々とした；遠い，遠く離れた． "@,
        (r@[30].0)@ == "øre1 [名] [ˈø:ɔ], øret [ˈø:ɔð], ører [ˈø:ɔ](/øren [ˈø:ɔn]), ørerne [ˈø:ɔnə]: 耳． "@ && (r@[30].1)@ == "øre1 [名] [ˈø:ɔ], øret [ˈø:ɔð], ører [ˈø:ɔ]/øren [ˈø:ɔn], ørerne [ˈø:ɔnə]: 耳． "@,
{
    let mut r: Vec<(&'static str, &'static str)> = Vec::new();
    r.push(("altså [副] [ˈal’sɔ, ˈαl’sɔ] すなわち，それゆえに，したがって，つまり，ようするに；〔話し手の心的態度を表す文副詞〕［意味を強めて］ほんとうに，まったく；［驚きを表して］なんと！；［遺憾，不満，苛立ち；非難・咎めを表して］ほんとうに，いいかげん（に）；［相手の言ったことに対して，相手の計画等の変更を促して］（…ということなのですが，それでもあなたは…するのですか？）；［間投詞的に用いられて，いらだち，非難，没頭など様々な感情を表す（特に話しことばにおいて）］あのねえ！，いいかい！，いやはや！，やれやれ！，これは驚いた！ ", "altså [副] [ˈal’sɔ, ˈαl’sɔ]: すなわち，それゆえに，したがって，つまり，ようするに；〔話し手の心的態度を表す文副詞〕［意味を強めて］ほんとうに，まったく；［驚きを表して］なんと！；［遺憾，不満，苛立ち；非難・咎めを表して］ほんとうに，いいかげん（に）；［相手の言ったことに対して，相手の計画等の変更を促して］（…ということなのですが，それでもあなたは…するのですか？）；［間投詞的に用いられて，いらだち，非難，没頭など様々な感情を表す（特に話しことばにおいて）］あのねえ！，いいかい！，いやはや！，やれやれ！，これは驚いた！ "));
    r.push(("Amager [固] [ˈαˌmα;] アマー［地名：コペンハーゲン南部の島．Kastrup空港がある］． ", "Amager [固] [ˈαˌmα;]: アマー［地名：コペンハーゲン南部の島．Kastrup空港がある］． "));
    r.push(("Amaliegade [固] [aˈmȧ;ljənˌgȧ:ðə] アメーリェゲーゼ［通り：コペンハーゲン］． ", "Amaliegade [固] [aˈmȧ;ljənˌgȧ:ðə]: アメーリェゲーゼ［通り：コペンハーゲン］． "));
    r.push(("Amalienborg [固] [aˈmȧ;ljənˌbɑ\u{30a}’] アメーリェンボー［王宮：コペンハーゲン］． ", "Amalienborg [固] [aˈmȧ;ljənˌbɑ\u{30a}’]: アメーリェンボー［王宮：コペンハーゲン］． "));
    r.push(("De [ˈdi, di] [代] [ˈdi, di], Dem [ˈdæm, dæm], Deres [ˈdȧɹɔs, ˈdȧ:ɔs, dȧɔs]:［人称代名詞２人称単数・複数］［フォーマルな関係の人に対して用いる］あなた，あなた方． ", "De [代] [ˈdi, di], Dem [ˈdæm, dæm], Deres [ˈdȧɹɔs, ˈdȧ:ɔs, dȧɔs]:［人称代名詞２人称単数・複数］［フォーマルな関係の人に対して用いる］あなた，あなた方． "));
    r.push(("de [ˈdi, di] [代] [ˈdi, di], dem [ˈdæm, dæm], deres [ˈdȧɹɔs, ˈdȧ:ɔs, dȧɔs]:［人称代名詞３人称複数］彼ら，彼女ら，それら；［不定代名詞］(一般の)人々，みんな；権威，当局；［指示代名詞］［人・動物・もの・ことを指して］あれら(の)，それら(の)；(…する・である)人たち・もの． ", "de [代] [ˈdi, di], dem [ˈdæm, dæm], deres [ˈdȧɹɔs, ˈdȧ:ɔs, dȧɔs]:［人称代名詞３人称複数］彼ら，彼女ら，それら；［不定代名詞］(一般の)人々，みんな；権威，当局；［指示代名詞］［人・動物・もの・ことを指して］あれら(の)，それら(の)；(…する・である)人たち・もの． "));
    r.push(("den1 [ˈdæn’, dæn] [代] [ˈdæn’, dæn], dens [ˈdæn(’)s, dæns], det [ˈde, de],  dets [ˈdæds, dæds], de [ˈdi, di], dem [ˈdæm, dæm], deres [ˈdȧɹɔs, ˈdȧ:ɔs, dȧɔs]:［人称代名詞３人称］［すでに述べた動物・もの・ことに参照して］それ；［指示代名詞］［人・動物・もの・ことを指して］あれ，それ；あの，その；前者の；前者． ", "den1 [代] [ˈdæn’, dæn], dens [ˈdæn(’)s, dæns], det [ˈde, de],  dets [ˈdæds, dæds], de [ˈdi, di], dem [ˈdæm, dæm], deres [ˈdȧɹɔs, ˈdȧ:ɔs, dȧɔs]:［人称代名詞３人称］［すでに述べた動物・もの・ことに参照して］それ；［指示代名詞］［人・動物・もの・ことを指して］あれ，それ；あの，その；前者の；前者． "));
    r.push(("en2 [数] [ˈe;n] et [ˈed]: 一，1つ，1人，1個 ", "en2 [数] [ˈe;n], et [ˈed]: 一，1つ，1人，1個 "));
    r.push(("firsindstyvende [数] [ˈfiɹ’sənsˈty:vənə] 第八十番目の． ", "firsindstyvende [数] [ˈfiɹ’sənsˈty:vənə]: 第八十番目の． "));
    r.push(("Frederiksborg Slot [固] [fræðrægsˈbɑ\u{30a};ˈslɔd] フレズレクスボー城［北シェランにある城］ ", "Frederiksborg Slot [固] [fræðrægsˈbɑ\u{30a};ˈslɔd]: フレズレクスボー城［北シェランにある城］ "));
    r.push(("græker [名] [ˈgræ;gɔ], grækeren [ˈgræ;gɔɔn], grækere [ˈgræ;gɔɔ],  grækerne [ˈgræ;gɔnə], ギリシア人 ", "græker [名] [ˈgræ;gɔ], grækeren [ˈgræ;gɔɔn], grækere [ˈgræ;gɔɔ],  grækerne [ˈgræ;gɔnə]: ギリシア人 "));
    r.push(("halvfemsindstyvende [数] [halˈfæm’sənsˈty:vənə, halˈfæm’sənsˈty:wənə] 第九十番目の． ", "halvfemsindstyvende [数] [halˈfæm’sənsˈty:vənə, halˈfæm’sənsˈty:wənə]: 第九十番目の． "));
    r.push(("halvfjerdsindstyvende [数] [halˈfjȧɹsənsˈty:vənə, halˈfjȧɹsənsˈty:wənə] 第七十番目の． ", "halvfjerdsindstyvende [数] [halˈfjȧɹsənsˈty:vənə, halˈfjȧɹsənsˈty:wənə]: 第七十番目の． "));
    r.push(("halvtredsindstyvende [数] [ˈtræsənsˈty:vənə, ˈtræsənsˈty:wənə] 第五十番目の． ", "halvtredsindstyvende [数] [ˈtræsənsˈty:vənə, ˈtræsənsˈty:wənə]: 第五十番目の． "));
    r.push(("have1 [名] [ˈhȧ:və, ˈhȧ:wə], haven [[ˈhȧ:vən, ˈhȧ:wən], haver [ˈhȧ:vɔ, ˈhȧ:wɔ],  haverne [ˈhȧ:vɔnə, ˈhȧ:wɔnə]: 庭，庭園，公園． ", "have1 [名] [ˈhȧ:və, ˈhȧ:wə], haven [ˈhȧ:vən, ˈhȧ:wən], haver [ˈhȧ:vɔ, ˈhȧ:wɔ],  haverne [ˈhȧ:vɔnə, ˈhȧ:wɔnə]: 庭，庭園，公園． "));
    r.push(("hof [名] [ˈhɔf] en, hoffer [ˈhɔfɔ]: デンマークのビール会社カールスベア社 (Carlsberg) のラガービールの愛称． ", "hof [名] [ˈhɔf] en, hoffer [ˈhɔfɔ]: デンマークのビール会社カールスベア社 (Carlsberg) のラガービールの愛称． "));
    r.push(("hun [代] [ˈhun, hun] hende [ˈhenə, henə], hendes [ˈhenəs, henəs]:［人称代名詞３人称単数女性］彼女． ", "hun [代] [ˈhun, hun], hende [ˈhenə, henə], hendes [ˈhenəs, henəs]:［人称代名詞３人称単数女性］彼女． "));
    r.push(("hvem [代] [ˈvæm’],［所有格］hvis [ˈves]:［疑問代名詞］誰・どの人・どんな人(が・を・に)；［関係代名詞］［人を表す先行詞を受けて］…するところの(人)［現在では，この用法では，hvemが関係節中の主語になることはない］；［先行詞を含む不定関係代名詞］(…する)だれでも，どんな人でも． ", "hvem [代] [ˈvæm’], hvis [ˈves]:［疑問代名詞］誰・どの人・どんな人(が・を・に)；［関係代名詞］［人を表す先行詞を受けて］…するところの(人)［現在では，この用法では，hvemが関係節中の主語になることはない］；［先行詞を含む不定関係代名詞］(…する)だれでも，どんな人でも． "));
    r.push(("jeg [代] [ˈjα(ᒑ), jα(ᒑ)] mig [ˈmαᒑ, mα(ᒑ)]:［人称代名詞１人称単数］私，僕． ", "jeg [代] [ˈjα(ᒑ), jα(ᒑ)], mig [ˈmαᒑ, mα(ᒑ)]:［人称代名詞１人称単数］私，僕． "));
    r.push(("klejne [名] [ˈklαᒑnə], klejnen [名] [ˈklαᒑnən], klejner [ˈklαᒑnɔ], klejner [ˈklαᒑnɔnə]: クライネ（特にクリスマスの時期に食する，ねじりドーナッツ）． ", "klejne [名] [ˈklαᒑnə], klejnen [ˈklαᒑnən], klejner [ˈklαᒑnɔ], klejner [ˈklαᒑnɔnə]: クライネ（特にクリスマスの時期に食する，ねじりドーナッツ）． "));
    r.push(("knuse [動] [ˈknu:sə], knuser [ˈknu;sɔ], knuste [ˈknu:sdə], knust [ˈknu;sd],  knusende [ˈknu:sənə], knus\u{f022} [ˈknu;s]: 壊す，こなごなにする，砕く． ", "knuse [動] [ˈknu:sə], knuser [ˈknu;sɔ], knuste [ˈknu:sdə], knust [ˈknu;sd],  knusende [ˈknu:sənə], knus! [ˈknu;s]: 壊す，こなごなにする，砕く． "));
    r.push(("lille [形] [ˈlilə]［性，既知/未知を問わず，名詞の単数形とともに］, små [små;] [性，既知/未知を問わず，名詞の複数形とともに]，mindre [ˈmendrɔ], mindst [ˈmen’sd], mindste [ˈmen’sdə]: 小さな． ", "lille [形] [ˈlilə], små [små;], mindre [ˈmendrɔ], mindst [ˈmen’sd], mindste [ˈmen’sdə]: 小さな． "));
    r.push(("Louisiana [固] [luisiˈana] ルイスィアナ美術館［北シェランのホムレベク(Humlebæk) にある美術館］． ", "Louisiana [固] [luisiˈana]: ルイスィアナ美術館［北シェランのホムレベク(Humlebæk) にある美術館］． "));
    r.push(("O.k. [間] [ˈåwˈkæᒑ]/[ˈo;ˈkå;]: OK，了解，わかりました ", "O.k. [間] [ˈåwˈkæᒑ, ˈo;ˈkå;]: OK，了解，わかりました "));
    r.push(("Samsø [固] [ˈsαmˌsø;] サムスー島． ", "Samsø [固] [ˈsαmˌsø;]: サムスー島． "));
    r.push(("snitte [動] [ˈsnidə], snitter [ˈsnidɔ], snittede [ˈsnidəðə], snittet [ˈsnidəð],  snittende [ˈsnidənə], snit!] [ˈsnid]: (木などを)ナイフで少し削る；彫る，刻む；細かく・薄く切る． ", "snitte [動] [ˈsnidə], snitter [ˈsnidɔ], snittede [ˈsnidəðə], snittet [ˈsnidəð],  snittende [ˈsnidənə], snit! [ˈsnid]: (木などを)ナイフで少し削る；彫る，刻む；細かく・薄く切る． "));
    r.push(("spændende [形] [ˈsbænənə] [不変化], , mere spændende, mest spændende: 面白い；わくわくする；スリリングな． ", "spændende [形] [ˈsbænənə] [不変化], mere spændende, mest spændende: 面白い；わくわくする；スリリングな． "));
    r.push(("tuborg [名] [ˈtuˌbɑ;] en, tuborg [ˈtuˌbɑ;]: かつてはビール会社トゥボー社が生産し，現在はカールスベア社が生産しているラガービールgrøm tuborgの愛称． ", "tuborg [名] [ˈtuˌbɑ;] en, tuborg [ˈtuˌbɑ;]: かつてはビール会社トゥボー社が生産し，現在はカールスベア社が生産しているラガービールgrøm tuborgの愛称． "));
    r.push(("varm [形] [ˈvα;m], varmt [ˈvα;md], varme [ˈvα:mə], varmere [ˈvα:mɔɔ],  varmest [ˈvα:məsd], varmeste [ˈvα:məsdə];温かい，暖かい；やや暑い；熱い；思いやりのある，心のこもった． ", "varm [形] [ˈvα;m], varmt [ˈvα;md], varme [ˈvα:mə], varmere [ˈvα:mɔɔ],  varmest [ˈvα:məsd], varmeste [ˈvα:məsdə]: 温かい，暖かい；やや暑い；熱い；思いやりのある，心のこもった． "));
    r.push(("vid [形] [ˈvi;ð], vidt [ˈvid], vide [形] [ˈvi:ðə], videre [ˈvi:ðɔɔ, videst [ˈvi:ðəsd],  videste [ˈvi:ðəsdə]: 広い，広大な，広々とした；遠い，遠く離れた． ", "vid [形] [ˈvi;ð], vidt [ˈvid], vide [ˈvi:ðə], videre [ˈvi:ðɔɔ], videst [ˈvi:ðəsd],  videste [ˈvi:ðəsdə]: 広い，広大な，広々とした；遠い，遠く離れた． "));
    r.push(("øre1 [名] [ˈø:ɔ], øret [ˈø:ɔð], ører [ˈø:ɔ](/øren [ˈø:ɔn]), ørerne [ˈø:ɔnə]: 耳． ", "øre1 [名] [ˈø:ɔ], øret [ˈø:ɔð], ører [ˈø:ɔ]/øren [ˈø:ɔn], ørerne [ˈø:ɔnə]: 耳． "));
    r
}

} // verus!
