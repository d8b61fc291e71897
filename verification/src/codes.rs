//! The Result Code Table: the static mapping from short modem result codes
//! to their long (verbose) textual forms. A code with no entry deliberately
//! falls back to `OK`: the gateway answers permissively rather than erroring
//! on a code it does not know.

use crate::bytes::{ascii_bytes, eq_bytes, lit_bytes};
use vstd::prelude::*;

verus! {

/// The long-form text paired with a short result code; codes outside the
/// table read as `OK`.
#[verifier::opaque]
pub open spec fn long_text(code: Seq<u8>) -> Seq<u8> {
    if code == ascii_bytes("0"@) {
        ascii_bytes("OK"@)
    } else if code == ascii_bytes("1"@) {
        ascii_bytes("CONNECT"@)
    } else if code == ascii_bytes("2"@) {
        ascii_bytes("RING"@)
    } else if code == ascii_bytes("3"@) {
        ascii_bytes("NO CARRIER"@)
    } else if code == ascii_bytes("4"@) {
        ascii_bytes("ERROR"@)
    } else if code == ascii_bytes("5"@) {
        ascii_bytes("CONNECT 1200"@)
    } else if code == ascii_bytes("6"@) {
        ascii_bytes("NO DIALTONE"@)
    } else if code == ascii_bytes("7"@) {
        ascii_bytes("BUSY"@)
    } else if code == ascii_bytes("8"@) {
        ascii_bytes("NO ANSWER"@)
    } else if code == ascii_bytes("9"@) {
        ascii_bytes("CONNECT 0600"@)
    } else if code == ascii_bytes("10"@) {
        ascii_bytes("CONNECT 2400"@)
    } else if code == ascii_bytes("11"@) {
        ascii_bytes("CONNECT 4800"@)
    } else if code == ascii_bytes("12"@) {
        ascii_bytes("CONNECT 9600"@)
    } else if code == ascii_bytes("13"@) {
        ascii_bytes("CONNECT 7200"@)
    } else if code == ascii_bytes("14"@) {
        ascii_bytes("CONNECT 12000"@)
    } else if code == ascii_bytes("15"@) {
        ascii_bytes("CONNECT 14400"@)
    } else if code == ascii_bytes("16"@) {
        ascii_bytes("CONNECT 19200"@)
    } else if code == ascii_bytes("17"@) {
        ascii_bytes("CONNECT 38400"@)
    } else if code == ascii_bytes("18"@) {
        ascii_bytes("CONNECT 57600"@)
    } else if code == ascii_bytes("19"@) {
        ascii_bytes("CONNECT 115200"@)
    } else if code == ascii_bytes("20"@) {
        ascii_bytes("CONNECT 230400"@)
    } else if code == ascii_bytes("22"@) {
        ascii_bytes("CONNECT 75TX/1200RX"@)
    } else if code == ascii_bytes("23"@) {
        ascii_bytes("CONNECT 1200TX/75RX"@)
    } else if code == ascii_bytes("24"@) {
        ascii_bytes("DELAYED"@)
    } else if code == ascii_bytes("32"@) {
        ascii_bytes("BLACKLISTED"@)
    } else if code == ascii_bytes("33"@) {
        ascii_bytes("FAX"@)
    } else if code == ascii_bytes("35"@) {
        ascii_bytes("DATA"@)
    } else if code == ascii_bytes("40"@) {
        ascii_bytes("CARRIER 300"@)
    } else if code == ascii_bytes("44"@) {
        ascii_bytes("CARRIER 1200/75"@)
    } else if code == ascii_bytes("45"@) {
        ascii_bytes("CARRIER 75/1200"@)
    } else if code == ascii_bytes("46"@) {
        ascii_bytes("CARRIER 1200"@)
    } else if code == ascii_bytes("47"@) {
        ascii_bytes("CARRIER 2400"@)
    } else if code == ascii_bytes("48"@) {
        ascii_bytes("CARRIER 4800"@)
    } else if code == ascii_bytes("49"@) {
        ascii_bytes("CARRIER 7200"@)
    } else if code == ascii_bytes("50"@) {
        ascii_bytes("CARRIER 9600"@)
    } else if code == ascii_bytes("51"@) {
        ascii_bytes("CARRIER 12000"@)
    } else if code == ascii_bytes("52"@) {
        ascii_bytes("CARRIER 14400"@)
    } else if code == ascii_bytes("53"@) {
        ascii_bytes("CARRIER 16800"@)
    } else if code == ascii_bytes("54"@) {
        ascii_bytes("CARRIER 19200"@)
    } else if code == ascii_bytes("55"@) {
        ascii_bytes("CARRIER 21600"@)
    } else if code == ascii_bytes("56"@) {
        ascii_bytes("CARRIER 24000"@)
    } else if code == ascii_bytes("57"@) {
        ascii_bytes("CARRIER 26400"@)
    } else if code == ascii_bytes("58"@) {
        ascii_bytes("CARRIER 28800"@)
    } else if code == ascii_bytes("59"@) {
        ascii_bytes("CONNECT 16800"@)
    } else if code == ascii_bytes("61"@) {
        ascii_bytes("CONNECT 21600"@)
    } else if code == ascii_bytes("62"@) {
        ascii_bytes("CONNECT 24000"@)
    } else if code == ascii_bytes("63"@) {
        ascii_bytes("CONNECT 26400"@)
    } else if code == ascii_bytes("64"@) {
        ascii_bytes("CONNECT 28800"@)
    } else if code == ascii_bytes("66"@) {
        ascii_bytes("COMPRESSION: CLASS 5"@)
    } else if code == ascii_bytes("67"@) {
        ascii_bytes("COMPRESSION: V.42 bis"@)
    } else if code == ascii_bytes("69"@) {
        ascii_bytes("COMPRESSION: NONE"@)
    } else if code == ascii_bytes("70"@) {
        ascii_bytes("PROTOCOL: NONE"@)
    } else if code == ascii_bytes("77"@) {
        ascii_bytes("PROTOCOL: LAPM"@)
    } else if code == ascii_bytes("78"@) {
        ascii_bytes("CARRIER 31200"@)
    } else if code == ascii_bytes("79"@) {
        ascii_bytes("CARRIER 33600"@)
    } else if code == ascii_bytes("80"@) {
        ascii_bytes("PROTOCOL: ALT"@)
    } else if code == ascii_bytes("81"@) {
        ascii_bytes("PROTOCOL: ALT-CELLULAR"@)
    } else if code == ascii_bytes("84"@) {
        ascii_bytes("CONNECT 33600"@)
    } else if code == ascii_bytes("91"@) {
        ascii_bytes("CONNECT 31200"@)
    } else if code == ascii_bytes("150"@) {
        ascii_bytes("CARRIER 32000"@)
    } else if code == ascii_bytes("151"@) {
        ascii_bytes("CARRIER 34000"@)
    } else if code == ascii_bytes("152"@) {
        ascii_bytes("CARRIER 36000"@)
    } else if code == ascii_bytes("153"@) {
        ascii_bytes("CARRIER 38000"@)
    } else if code == ascii_bytes("154"@) {
        ascii_bytes("CARRIER 40000"@)
    } else if code == ascii_bytes("155"@) {
        ascii_bytes("CARRIER 42000"@)
    } else if code == ascii_bytes("156"@) {
        ascii_bytes("CARRIER 44000"@)
    } else if code == ascii_bytes("157"@) {
        ascii_bytes("CARRIER 46000"@)
    } else if code == ascii_bytes("158"@) {
        ascii_bytes("CARRIER 48000"@)
    } else if code == ascii_bytes("159"@) {
        ascii_bytes("CARRIER 50000"@)
    } else if code == ascii_bytes("160"@) {
        ascii_bytes("CARRIER 52000"@)
    } else if code == ascii_bytes("161"@) {
        ascii_bytes("CARRIER 54000"@)
    } else if code == ascii_bytes("162"@) {
        ascii_bytes("CARRIER 56000"@)
    } else if code == ascii_bytes("165"@) {
        ascii_bytes("CONNECT 32000"@)
    } else if code == ascii_bytes("166"@) {
        ascii_bytes("CONNECT 34000"@)
    } else if code == ascii_bytes("167"@) {
        ascii_bytes("CONNECT 36000"@)
    } else if code == ascii_bytes("168"@) {
        ascii_bytes("CONNECT 38000"@)
    } else if code == ascii_bytes("169"@) {
        ascii_bytes("CONNECT 40000"@)
    } else if code == ascii_bytes("170"@) {
        ascii_bytes("CONNECT 42000"@)
    } else if code == ascii_bytes("171"@) {
        ascii_bytes("CONNECT 44000"@)
    } else if code == ascii_bytes("172"@) {
        ascii_bytes("CONNECT 46000"@)
    } else if code == ascii_bytes("173"@) {
        ascii_bytes("CONNECT 48000"@)
    } else if code == ascii_bytes("174"@) {
        ascii_bytes("CONNECT 50000"@)
    } else if code == ascii_bytes("175"@) {
        ascii_bytes("CONNECT 52000"@)
    } else if code == ascii_bytes("176"@) {
        ascii_bytes("CONNECT 54000"@)
    } else if code == ascii_bytes("177"@) {
        ascii_bytes("CONNECT 56000"@)
    } else if code == ascii_bytes("+F4"@) {
        ascii_bytes("+FCERROR"@)
    } else if code == ascii_bytes("V69420_WEBTV-K56_DLP"@) {
        ascii_bytes("V69420_WEBTV-K56_DLP"@)
    } else {
        ascii_bytes("OK"@)
    }
}

/// A short code that has a row of its own in the table.
pub open spec fn in_table(code: Seq<u8>) -> bool {
    ||| code == ascii_bytes("0"@)
    ||| code == ascii_bytes("1"@)
    ||| code == ascii_bytes("2"@)
    ||| code == ascii_bytes("3"@)
    ||| code == ascii_bytes("4"@)
    ||| code == ascii_bytes("5"@)
    ||| code == ascii_bytes("6"@)
    ||| code == ascii_bytes("7"@)
    ||| code == ascii_bytes("8"@)
    ||| code == ascii_bytes("9"@)
    ||| code == ascii_bytes("10"@)
    ||| code == ascii_bytes("11"@)
    ||| code == ascii_bytes("12"@)
    ||| code == ascii_bytes("13"@)
    ||| code == ascii_bytes("14"@)
    ||| code == ascii_bytes("15"@)
    ||| code == ascii_bytes("16"@)
    ||| code == ascii_bytes("17"@)
    ||| code == ascii_bytes("18"@)
    ||| code == ascii_bytes("19"@)
    ||| code == ascii_bytes("20"@)
    ||| code == ascii_bytes("22"@)
    ||| code == ascii_bytes("23"@)
    ||| code == ascii_bytes("24"@)
    ||| code == ascii_bytes("32"@)
    ||| code == ascii_bytes("33"@)
    ||| code == ascii_bytes("35"@)
    ||| code == ascii_bytes("40"@)
    ||| code == ascii_bytes("44"@)
    ||| code == ascii_bytes("45"@)
    ||| code == ascii_bytes("46"@)
    ||| code == ascii_bytes("47"@)
    ||| code == ascii_bytes("48"@)
    ||| code == ascii_bytes("49"@)
    ||| code == ascii_bytes("50"@)
    ||| code == ascii_bytes("51"@)
    ||| code == ascii_bytes("52"@)
    ||| code == ascii_bytes("53"@)
    ||| code == ascii_bytes("54"@)
    ||| code == ascii_bytes("55"@)
    ||| code == ascii_bytes("56"@)
    ||| code == ascii_bytes("57"@)
    ||| code == ascii_bytes("58"@)
    ||| code == ascii_bytes("59"@)
    ||| code == ascii_bytes("61"@)
    ||| code == ascii_bytes("62"@)
    ||| code == ascii_bytes("63"@)
    ||| code == ascii_bytes("64"@)
    ||| code == ascii_bytes("66"@)
    ||| code == ascii_bytes("67"@)
    ||| code == ascii_bytes("69"@)
    ||| code == ascii_bytes("70"@)
    ||| code == ascii_bytes("77"@)
    ||| code == ascii_bytes("78"@)
    ||| code == ascii_bytes("79"@)
    ||| code == ascii_bytes("80"@)
    ||| code == ascii_bytes("81"@)
    ||| code == ascii_bytes("84"@)
    ||| code == ascii_bytes("91"@)
    ||| code == ascii_bytes("150"@)
    ||| code == ascii_bytes("151"@)
    ||| code == ascii_bytes("152"@)
    ||| code == ascii_bytes("153"@)
    ||| code == ascii_bytes("154"@)
    ||| code == ascii_bytes("155"@)
    ||| code == ascii_bytes("156"@)
    ||| code == ascii_bytes("157"@)
    ||| code == ascii_bytes("158"@)
    ||| code == ascii_bytes("159"@)
    ||| code == ascii_bytes("160"@)
    ||| code == ascii_bytes("161"@)
    ||| code == ascii_bytes("162"@)
    ||| code == ascii_bytes("165"@)
    ||| code == ascii_bytes("166"@)
    ||| code == ascii_bytes("167"@)
    ||| code == ascii_bytes("168"@)
    ||| code == ascii_bytes("169"@)
    ||| code == ascii_bytes("170"@)
    ||| code == ascii_bytes("171"@)
    ||| code == ascii_bytes("172"@)
    ||| code == ascii_bytes("173"@)
    ||| code == ascii_bytes("174"@)
    ||| code == ascii_bytes("175"@)
    ||| code == ascii_bytes("176"@)
    ||| code == ascii_bytes("177"@)
    ||| code == ascii_bytes("+F4"@)
    ||| code == ascii_bytes("V69420_WEBTV-K56_DLP"@)
}

/// Any code outside the table reads as `OK` in verbose form: the permissive
/// default of the table, stated on its own.
pub proof fn lemma_unknown_code_reads_ok(code: Seq<u8>)
    ensures
        !in_table(code) ==> long_text(code) == ascii_bytes("OK"@),
{
    reveal(long_text);
}

/// One table row: `Some` of the long text when `code` is `short`'s bytes.
fn entry(code: &[u8], short: &str, long: &str) -> (r: Option<Vec<u8>>)
    requires
        short.is_ascii(),
        long.is_ascii(),
    ensures
        (r is Some) == (code@ == ascii_bytes(short@)),
        r matches Some(v) ==> v@ == ascii_bytes(long@),
{
    let s = lit_bytes(short);
    if eq_bytes(code, s.as_slice()) {
        Some(lit_bytes(long))
    } else {
        None
    }
}

/// Look a short code up in the table; the verbose text, `OK` when unknown.
pub fn long_for(code: &[u8]) -> (r: Vec<u8>)
    ensures
        r@ == long_text(code@),
{
    proof {
        reveal(long_text);
        reveal_strlit("0");
        reveal_strlit("OK");
        reveal_strlit("1");
        reveal_strlit("CONNECT");
        reveal_strlit("2");
        reveal_strlit("RING");
        reveal_strlit("3");
        reveal_strlit("NO CARRIER");
        reveal_strlit("4");
        reveal_strlit("ERROR");
        reveal_strlit("5");
        reveal_strlit("CONNECT 1200");
        reveal_strlit("6");
        reveal_strlit("NO DIALTONE");
        reveal_strlit("7");
        reveal_strlit("BUSY");
        reveal_strlit("8");
        reveal_strlit("NO ANSWER");
        reveal_strlit("9");
        reveal_strlit("CONNECT 0600");
        reveal_strlit("10");
        reveal_strlit("CONNECT 2400");
        reveal_strlit("11");
        reveal_strlit("CONNECT 4800");
        reveal_strlit("12");
        reveal_strlit("CONNECT 9600");
        reveal_strlit("13");
        reveal_strlit("CONNECT 7200");
        reveal_strlit("14");
        reveal_strlit("CONNECT 12000");
        reveal_strlit("15");
        reveal_strlit("CONNECT 14400");
        reveal_strlit("16");
        reveal_strlit("CONNECT 19200");
        reveal_strlit("17");
        reveal_strlit("CONNECT 38400");
        reveal_strlit("18");
        reveal_strlit("CONNECT 57600");
        reveal_strlit("19");
        reveal_strlit("CONNECT 115200");
        reveal_strlit("20");
        reveal_strlit("CONNECT 230400");
        reveal_strlit("22");
        reveal_strlit("CONNECT 75TX/1200RX");
        reveal_strlit("23");
        reveal_strlit("CONNECT 1200TX/75RX");
        reveal_strlit("24");
        reveal_strlit("DELAYED");
        reveal_strlit("32");
        reveal_strlit("BLACKLISTED");
        reveal_strlit("33");
        reveal_strlit("FAX");
        reveal_strlit("35");
        reveal_strlit("DATA");
        reveal_strlit("40");
        reveal_strlit("CARRIER 300");
        reveal_strlit("44");
        reveal_strlit("CARRIER 1200/75");
        reveal_strlit("45");
        reveal_strlit("CARRIER 75/1200");
        reveal_strlit("46");
        reveal_strlit("CARRIER 1200");
        reveal_strlit("47");
        reveal_strlit("CARRIER 2400");
        reveal_strlit("48");
        reveal_strlit("CARRIER 4800");
        reveal_strlit("49");
        reveal_strlit("CARRIER 7200");
        reveal_strlit("50");
        reveal_strlit("CARRIER 9600");
        reveal_strlit("51");
        reveal_strlit("CARRIER 12000");
        reveal_strlit("52");
        reveal_strlit("CARRIER 14400");
        reveal_strlit("53");
        reveal_strlit("CARRIER 16800");
        reveal_strlit("54");
        reveal_strlit("CARRIER 19200");
        reveal_strlit("55");
        reveal_strlit("CARRIER 21600");
        reveal_strlit("56");
        reveal_strlit("CARRIER 24000");
        reveal_strlit("57");
        reveal_strlit("CARRIER 26400");
        reveal_strlit("58");
        reveal_strlit("CARRIER 28800");
        reveal_strlit("59");
        reveal_strlit("CONNECT 16800");
        reveal_strlit("61");
        reveal_strlit("CONNECT 21600");
        reveal_strlit("62");
        reveal_strlit("CONNECT 24000");
        reveal_strlit("63");
        reveal_strlit("CONNECT 26400");
        reveal_strlit("64");
        reveal_strlit("CONNECT 28800");
        reveal_strlit("66");
        reveal_strlit("COMPRESSION: CLASS 5");
        reveal_strlit("67");
        reveal_strlit("COMPRESSION: V.42 bis");
        reveal_strlit("69");
        reveal_strlit("COMPRESSION: NONE");
        reveal_strlit("70");
        reveal_strlit("PROTOCOL: NONE");
        reveal_strlit("77");
        reveal_strlit("PROTOCOL: LAPM");
        reveal_strlit("78");
        reveal_strlit("CARRIER 31200");
        reveal_strlit("79");
        reveal_strlit("CARRIER 33600");
        reveal_strlit("80");
        reveal_strlit("PROTOCOL: ALT");
        reveal_strlit("81");
        reveal_strlit("PROTOCOL: ALT-CELLULAR");
        reveal_strlit("84");
        reveal_strlit("CONNECT 33600");
        reveal_strlit("91");
        reveal_strlit("CONNECT 31200");
        reveal_strlit("150");
        reveal_strlit("CARRIER 32000");
        reveal_strlit("151");
        reveal_strlit("CARRIER 34000");
        reveal_strlit("152");
        reveal_strlit("CARRIER 36000");
        reveal_strlit("153");
        reveal_strlit("CARRIER 38000");
        reveal_strlit("154");
        reveal_strlit("CARRIER 40000");
        reveal_strlit("155");
        reveal_strlit("CARRIER 42000");
        reveal_strlit("156");
        reveal_strlit("CARRIER 44000");
        reveal_strlit("157");
        reveal_strlit("CARRIER 46000");
        reveal_strlit("158");
        reveal_strlit("CARRIER 48000");
        reveal_strlit("159");
        reveal_strlit("CARRIER 50000");
        reveal_strlit("160");
        reveal_strlit("CARRIER 52000");
        reveal_strlit("161");
        reveal_strlit("CARRIER 54000");
        reveal_strlit("162");
        reveal_strlit("CARRIER 56000");
        reveal_strlit("165");
        reveal_strlit("CONNECT 32000");
        reveal_strlit("166");
        reveal_strlit("CONNECT 34000");
        reveal_strlit("167");
        reveal_strlit("CONNECT 36000");
        reveal_strlit("168");
        reveal_strlit("CONNECT 38000");
        reveal_strlit("169");
        reveal_strlit("CONNECT 40000");
        reveal_strlit("170");
        reveal_strlit("CONNECT 42000");
        reveal_strlit("171");
        reveal_strlit("CONNECT 44000");
        reveal_strlit("172");
        reveal_strlit("CONNECT 46000");
        reveal_strlit("173");
        reveal_strlit("CONNECT 48000");
        reveal_strlit("174");
        reveal_strlit("CONNECT 50000");
        reveal_strlit("175");
        reveal_strlit("CONNECT 52000");
        reveal_strlit("176");
        reveal_strlit("CONNECT 54000");
        reveal_strlit("177");
        reveal_strlit("CONNECT 56000");
        reveal_strlit("+F4");
        reveal_strlit("+FCERROR");
        reveal_strlit("V69420_WEBTV-K56_DLP");
    }
    if let Some(r) = entry(code, "0", "OK") {
        return r;
    }
    if let Some(r) = entry(code, "1", "CONNECT") {
        return r;
    }
    if let Some(r) = entry(code, "2", "RING") {
        return r;
    }
    if let Some(r) = entry(code, "3", "NO CARRIER") {
        return r;
    }
    if let Some(r) = entry(code, "4", "ERROR") {
        return r;
    }
    if let Some(r) = entry(code, "5", "CONNECT 1200") {
        return r;
    }
    if let Some(r) = entry(code, "6", "NO DIALTONE") {
        return r;
    }
    if let Some(r) = entry(code, "7", "BUSY") {
        return r;
    }
    if let Some(r) = entry(code, "8", "NO ANSWER") {
        return r;
    }
    if let Some(r) = entry(code, "9", "CONNECT 0600") {
        return r;
    }
    if let Some(r) = entry(code, "10", "CONNECT 2400") {
        return r;
    }
    if let Some(r) = entry(code, "11", "CONNECT 4800") {
        return r;
    }
    if let Some(r) = entry(code, "12", "CONNECT 9600") {
        return r;
    }
    if let Some(r) = entry(code, "13", "CONNECT 7200") {
        return r;
    }
    if let Some(r) = entry(code, "14", "CONNECT 12000") {
        return r;
    }
    if let Some(r) = entry(code, "15", "CONNECT 14400") {
        return r;
    }
    if let Some(r) = entry(code, "16", "CONNECT 19200") {
        return r;
    }
    if let Some(r) = entry(code, "17", "CONNECT 38400") {
        return r;
    }
    if let Some(r) = entry(code, "18", "CONNECT 57600") {
        return r;
    }
    if let Some(r) = entry(code, "19", "CONNECT 115200") {
        return r;
    }
    if let Some(r) = entry(code, "20", "CONNECT 230400") {
        return r;
    }
    if let Some(r) = entry(code, "22", "CONNECT 75TX/1200RX") {
        return r;
    }
    if let Some(r) = entry(code, "23", "CONNECT 1200TX/75RX") {
        return r;
    }
    if let Some(r) = entry(code, "24", "DELAYED") {
        return r;
    }
    if let Some(r) = entry(code, "32", "BLACKLISTED") {
        return r;
    }
    if let Some(r) = entry(code, "33", "FAX") {
        return r;
    }
    if let Some(r) = entry(code, "35", "DATA") {
        return r;
    }
    if let Some(r) = entry(code, "40", "CARRIER 300") {
        return r;
    }
    if let Some(r) = entry(code, "44", "CARRIER 1200/75") {
        return r;
    }
    if let Some(r) = entry(code, "45", "CARRIER 75/1200") {
        return r;
    }
    if let Some(r) = entry(code, "46", "CARRIER 1200") {
        return r;
    }
    if let Some(r) = entry(code, "47", "CARRIER 2400") {
        return r;
    }
    if let Some(r) = entry(code, "48", "CARRIER 4800") {
        return r;
    }
    if let Some(r) = entry(code, "49", "CARRIER 7200") {
        return r;
    }
    if let Some(r) = entry(code, "50", "CARRIER 9600") {
        return r;
    }
    if let Some(r) = entry(code, "51", "CARRIER 12000") {
        return r;
    }
    if let Some(r) = entry(code, "52", "CARRIER 14400") {
        return r;
    }
    if let Some(r) = entry(code, "53", "CARRIER 16800") {
        return r;
    }
    if let Some(r) = entry(code, "54", "CARRIER 19200") {
        return r;
    }
    if let Some(r) = entry(code, "55", "CARRIER 21600") {
        return r;
    }
    if let Some(r) = entry(code, "56", "CARRIER 24000") {
        return r;
    }
    if let Some(r) = entry(code, "57", "CARRIER 26400") {
        return r;
    }
    if let Some(r) = entry(code, "58", "CARRIER 28800") {
        return r;
    }
    if let Some(r) = entry(code, "59", "CONNECT 16800") {
        return r;
    }
    if let Some(r) = entry(code, "61", "CONNECT 21600") {
        return r;
    }
    if let Some(r) = entry(code, "62", "CONNECT 24000") {
        return r;
    }
    if let Some(r) = entry(code, "63", "CONNECT 26400") {
        return r;
    }
    if let Some(r) = entry(code, "64", "CONNECT 28800") {
        return r;
    }
    if let Some(r) = entry(code, "66", "COMPRESSION: CLASS 5") {
        return r;
    }
    if let Some(r) = entry(code, "67", "COMPRESSION: V.42 bis") {
        return r;
    }
    if let Some(r) = entry(code, "69", "COMPRESSION: NONE") {
        return r;
    }
    if let Some(r) = entry(code, "70", "PROTOCOL: NONE") {
        return r;
    }
    if let Some(r) = entry(code, "77", "PROTOCOL: LAPM") {
        return r;
    }
    if let Some(r) = entry(code, "78", "CARRIER 31200") {
        return r;
    }
    if let Some(r) = entry(code, "79", "CARRIER 33600") {
        return r;
    }
    if let Some(r) = entry(code, "80", "PROTOCOL: ALT") {
        return r;
    }
    if let Some(r) = entry(code, "81", "PROTOCOL: ALT-CELLULAR") {
        return r;
    }
    if let Some(r) = entry(code, "84", "CONNECT 33600") {
        return r;
    }
    if let Some(r) = entry(code, "91", "CONNECT 31200") {
        return r;
    }
    if let Some(r) = entry(code, "150", "CARRIER 32000") {
        return r;
    }
    if let Some(r) = entry(code, "151", "CARRIER 34000") {
        return r;
    }
    if let Some(r) = entry(code, "152", "CARRIER 36000") {
        return r;
    }
    if let Some(r) = entry(code, "153", "CARRIER 38000") {
        return r;
    }
    if let Some(r) = entry(code, "154", "CARRIER 40000") {
        return r;
    }
    if let Some(r) = entry(code, "155", "CARRIER 42000") {
        return r;
    }
    if let Some(r) = entry(code, "156", "CARRIER 44000") {
        return r;
    }
    if let Some(r) = entry(code, "157", "CARRIER 46000") {
        return r;
    }
    if let Some(r) = entry(code, "158", "CARRIER 48000") {
        return r;
    }
    if let Some(r) = entry(code, "159", "CARRIER 50000") {
        return r;
    }
    if let Some(r) = entry(code, "160", "CARRIER 52000") {
        return r;
    }
    if let Some(r) = entry(code, "161", "CARRIER 54000") {
        return r;
    }
    if let Some(r) = entry(code, "162", "CARRIER 56000") {
        return r;
    }
    if let Some(r) = entry(code, "165", "CONNECT 32000") {
        return r;
    }
    if let Some(r) = entry(code, "166", "CONNECT 34000") {
        return r;
    }
    if let Some(r) = entry(code, "167", "CONNECT 36000") {
        return r;
    }
    if let Some(r) = entry(code, "168", "CONNECT 38000") {
        return r;
    }
    if let Some(r) = entry(code, "169", "CONNECT 40000") {
        return r;
    }
    if let Some(r) = entry(code, "170", "CONNECT 42000") {
        return r;
    }
    if let Some(r) = entry(code, "171", "CONNECT 44000") {
        return r;
    }
    if let Some(r) = entry(code, "172", "CONNECT 46000") {
        return r;
    }
    if let Some(r) = entry(code, "173", "CONNECT 48000") {
        return r;
    }
    if let Some(r) = entry(code, "174", "CONNECT 50000") {
        return r;
    }
    if let Some(r) = entry(code, "175", "CONNECT 52000") {
        return r;
    }
    if let Some(r) = entry(code, "176", "CONNECT 54000") {
        return r;
    }
    if let Some(r) = entry(code, "177", "CONNECT 56000") {
        return r;
    }
    if let Some(r) = entry(code, "+F4", "+FCERROR") {
        return r;
    }
    if let Some(r) = entry(code, "V69420_WEBTV-K56_DLP", "V69420_WEBTV-K56_DLP") {
        return r;
    }
    lit_bytes("OK")
}

} // verus!
