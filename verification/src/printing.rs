//! Print-job preparation: the printer-selection rule, the test-page text,
//! and the extraction and decoding of an uploaded photo payload. The print
//! spool itself is an outside collaborator; everything here works on the
//! plain values that cross its boundary.

use vstd::prelude::*;
use vstd::string::StringExecFns;
use crate::codec::{base64_decoded_of, decode_base64};

verus! {

/// One printer, as shown to callers.
#[derive(Debug, Clone)]
pub struct PrinterInfo {
    pub name: String,
    pub system_name: String,
    pub is_default: bool,
    pub is_shared: bool,
    pub driver_name: String,
    pub uri: String,
    pub state: String,
}

/// Mathematical image of a `PrinterInfo`.
#[verifier::ext_equal]
pub ghost struct PrinterInfoView {
    pub name: Seq<char>,
    pub system_name: Seq<char>,
    pub is_default: bool,
    pub is_shared: bool,
    pub driver_name: Seq<char>,
    pub uri: Seq<char>,
    pub state: Seq<char>,
}

impl View for PrinterInfo {
    type V = PrinterInfoView;

    open spec fn view(&self) -> PrinterInfoView {
        PrinterInfoView {
            name: self.name@,
            system_name: self.system_name@,
            is_default: self.is_default,
            is_shared: self.is_shared,
            driver_name: self.driver_name@,
            uri: self.uri@,
            state: self.state@,
        }
    }
}

/// A query names a printer when it equals its display name or its system name.
pub open spec fn printer_query_matches(p: PrinterInfoView, query: Seq<char>) -> bool {
    p.name == query || p.system_name == query
}

/// Find the first printer the query names, if any.
pub fn find_printer(list: &Vec<PrinterInfo>, query: &String) -> (r: Option<usize>)
    ensures
        match r {
            Some(i) => 0 <= i < list@.len() && printer_query_matches(list@[i as int]@, query@)
                && forall|k: int| 0 <= k < i ==> !printer_query_matches(list@[k]@, query@),
            None => forall|k: int|
                0 <= k < list@.len() ==> !printer_query_matches(list@[k]@, query@),
        },
{
    let mut i: usize = 0;
    while i < list.len()
        invariant
            0 <= i <= list@.len(),
            forall|k: int| 0 <= k < i ==> !printer_query_matches(list@[k]@, query@),
        decreases list@.len() - i,
    {
        if list[i].name == *query || list[i].system_name == *query {
            return Some(i);
        }
        i += 1;
    }
    None
}

/// The text of a printer test page for the given printer name, driver,
/// state description and timestamp.
pub open spec fn test_page_spec(
    name: Seq<char>,
    driver: Seq<char>,
    state: Seq<char>,
    ts: Seq<char>,
) -> Seq<char> {
    "\nChronoSnap Printer Test Page\n=============================\n\nPrinter: "@ + name
        + "\nDriver: "@ + driver + "\nStatus: "@ + state
        + "\n\nIf you can read this clearly, your printer is working correctly!\n\nColors: [Black] [Cyan] [Magenta] [Yellow]\n\nTest printed at: "@
        + ts + "\n\nChronoSnap Photobooth System\n"@
}

/// Compose the test page sent to a printer the caller picked.
pub fn test_page_text(name: &String, driver: &String, state: &String, ts: &String) -> (r: String)
    ensures
        r@ == test_page_spec(name@, driver@, state@, ts@),
{
    "\nChronoSnap Printer Test Page\n=============================\n\nPrinter: ".to_owned()
        .concat(name.as_str())
        .concat("\nDriver: ")
        .concat(driver.as_str())
        .concat("\nStatus: ")
        .concat(state.as_str())
        .concat(
            "\n\nIf you can read this clearly, your printer is working correctly!\n\nColors: [Black] [Cyan] [Magenta] [Yellow]\n\nTest printed at: ",
        )
        .concat(ts.as_str())
        .concat("\n\nChronoSnap Photobooth System\n")
}

/// The bytes of the ASCII text `data:image`.
pub open spec fn data_image_prefix() -> Seq<u8> {
    seq![100u8, 97u8, 116u8, 97u8, 58u8, 105u8, 109u8, 97u8, 103u8, 101u8]
}

/// Whether an uploaded payload is a data URL rather than bare base64.
pub open spec fn has_data_image_prefix(s: Seq<u8>) -> bool {
    s.len() >= 10 && s.subrange(0, 10) == data_image_prefix()
}

/// The index of the first comma at or after `i`, or the length when none.
pub open spec fn comma_from(s: Seq<u8>, i: int) -> int
    decreases s.len() - i when 0 <= i <= s.len()
{
    if i < 0 || i >= s.len() {
        s.len() as int
    } else if s[i] == 44 {
        i
    } else {
        comma_from(s, i + 1)
    }
}

/// What an uploaded photo string stands for: a data URL yields the piece
/// between its first comma and the next one (an error when it has no comma),
/// and anything else passes through whole, to be decoded as bare base64.
pub open spec fn photo_payload_spec(s: Seq<u8>) -> Result<Seq<u8>, ()> {
    if has_data_image_prefix(s) {
        let c1 = comma_from(s, 0);
        if c1 == s.len() {
            Err(())
        } else {
            Ok(s.subrange(c1 + 1, comma_from(s, c1 + 1)))
        }
    } else {
        Ok(s)
    }
}

proof fn lemma_comma_from_found(s: Seq<u8>, from: int, at: int)
    requires
        0 <= from <= at <= s.len(),
        forall|k: int| from <= k < at ==> s[k] != 44,
        at < s.len() ==> s[at] == 44,
    ensures
        comma_from(s, from) == if at < s.len() {
            at
        } else {
            s.len() as int
        },
    decreases at - from,
{
    if from < at {
        lemma_comma_from_found(s, from + 1, at);
    }
}

/// Find the first comma at or after `from`, or the length when none.
fn find_comma(data: &Vec<u8>, from: usize) -> (r: usize)
    requires
        from <= data@.len(),
    ensures
        r == comma_from(data@, from as int),
        from <= r <= data@.len(),
{
    let mut i: usize = from;
    while i < data.len()
        invariant
            from <= i <= data@.len(),
            forall|k: int| from <= k < i ==> data@[k] != 44,
        decreases data@.len() - i,
    {
        if data[i] == 44u8 {
            proof {
                lemma_comma_from_found(data@, from as int, i as int);
            }
            return i;
        }
        i += 1;
    }
    proof {
        lemma_comma_from_found(data@, from as int, data@.len() as int);
    }
    data.len()
}

/// Extract the base64 piece of an uploaded photo string, given as bytes.
pub fn photo_payload(image_data: &Vec<u8>) -> (r: Result<Vec<u8>, String>)
    ensures
        match photo_payload_spec(image_data@) {
            Ok(p) => r matches Ok(v) && v@ == p,
            Err(u) => r matches Err(m) && m@ == "Invalid image data format"@,
        },
{
    let prefixed = image_data.len() >= 10 && image_data[0] == 100u8 && image_data[1] == 97u8
        && image_data[2] == 116u8 && image_data[3] == 97u8 && image_data[4] == 58u8
        && image_data[5] == 105u8 && image_data[6] == 109u8 && image_data[7] == 97u8
        && image_data[8] == 103u8 && image_data[9] == 101u8;
    proof {
        if image_data@.len() >= 10 {
            let p = image_data@.subrange(0, 10);
            if prefixed {
                assert(p =~= data_image_prefix());
            } else if p == data_image_prefix() {
                assert(p[0] == 100 && p[1] == 97 && p[2] == 116 && p[3] == 97 && p[4] == 58
                    && p[5] == 105 && p[6] == 109 && p[7] == 97 && p[8] == 103 && p[9] == 101);
            }
        }
    }
    if !prefixed {
        return Ok(image_data.clone());
    }
    let c1 = find_comma(image_data, 0);
    if c1 == image_data.len() {
        return Err("Invalid image data format".to_owned());
    }
    let c2 = find_comma(image_data, c1 + 1);
    let mut out: Vec<u8> = Vec::new();
    let mut i: usize = c1 + 1;
    while i < c2
        invariant
            c1 + 1 <= i <= c2 <= image_data@.len(),
            out@ =~= image_data@.subrange(c1 + 1, i as int),
        decreases c2 - i,
    {
        out.push(image_data[i]);
        proof {
            assert(out@ =~= image_data@.subrange(c1 + 1, i + 1));
        }
        i += 1;
    }
    Ok(out)
}

/// Decode an uploaded photo string into the image bytes to print: strip a
/// data-URL wrapper when one is present, then decode the base64 piece.
pub fn decode_photo_payload(image_data: &Vec<u8>) -> (r: Result<Vec<u8>, String>)
    ensures
        photo_payload_spec(image_data@) is Err ==> (r matches Err(m) && m@
            == "Invalid image data format"@),
        r matches Ok(b) ==> (photo_payload_spec(image_data@) matches Ok(p) && b@
            == base64_decoded_of(p)),
{
    let payload = match photo_payload(image_data) {
        Ok(p) => p,
        Err(e) => {
            return Err(e);
        },
    };
    decode_base64(&payload)
}

} // verus!
