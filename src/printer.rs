use vstd::prelude::*;

verus! {

/// The one text that the service uses for a true flag.
pub open spec fn true_token() -> Seq<char> {
    "True"@
}

/// The capitalised-boolean rule: a flag is set exactly when its text is `True`.
pub open spec fn flag_of(text: Seq<char>) -> bool {
    text == true_token()
}

/// Decodes a flag as the printer host sends it: `true` exactly for the text
/// `True`, `false` for anything else (`true`, `TRUE`, `False`, the empty text).
pub fn deserialize_bool_from_str(s: &str) -> (r: bool)
    ensures
        r == flag_of(s@),
{
    proof {
        reveal_strlit("True");
    }
    if s.unicode_len() != 4 {
        return false;
    }
    let r = s.get_char(0) == 'T' && s.get_char(1) == 'r' && s.get_char(2) == 'u'
        && s.get_char(3) == 'e';
    proof {
        if r {
            assert(s@ =~= true_token());
        } else {
            assert(exists|i: int| 0 <= i < 4 && s@[i] != true_token()[i]);
        }
    }
    r
}

/// One printer record as it appears in the listing, every field as text.
#[derive(Debug)]
pub struct RawPrinter {
    pub name: String,
    pub model_name: String,
    pub is_connected: String,
    pub is_local: String,
    pub is_twin_turbo: String,
}

/// Mathematical view of a decoded printer record.
pub struct PrinterView {
    pub name: Seq<char>,
    pub model_name: Seq<char>,
    pub is_connected: bool,
    pub is_local: bool,
    pub is_twin_turbo: bool,
}

/// The record that a raw listing entry decodes to.
pub open spec fn printer_of(raw: RawPrinter) -> PrinterView {
    PrinterView {
        name: raw.name@,
        model_name: raw.model_name@,
        is_connected: flag_of(raw.is_connected@),
        is_local: flag_of(raw.is_local@),
        is_twin_turbo: flag_of(raw.is_twin_turbo@),
    }
}

/// A printer known to the host.
#[derive(Debug)]
pub struct PrinterResponse {
    name: String,
    model_name: String,
    is_connected: bool,
    is_local: bool,
    is_twin_turbo: bool,
}

impl View for PrinterResponse {
    type V = PrinterView;

    closed spec fn view(&self) -> PrinterView {
        PrinterView {
            name: self.name@,
            model_name: self.model_name@,
            is_connected: self.is_connected,
            is_local: self.is_local,
            is_twin_turbo: self.is_twin_turbo,
        }
    }
}

impl PrinterResponse {
    /// Decodes one listing entry, applying the capitalised-boolean rule to
    /// its three flags.
    pub fn from_raw(raw: RawPrinter) -> (r: PrinterResponse)
        ensures
            r@ == printer_of(raw),
    {
        let is_connected = deserialize_bool_from_str(raw.is_connected.as_str());
        let is_local = deserialize_bool_from_str(raw.is_local.as_str());
        let is_twin_turbo = deserialize_bool_from_str(raw.is_twin_turbo.as_str());
        PrinterResponse {
            name: raw.name,
            model_name: raw.model_name,
            is_connected,
            is_local,
            is_twin_turbo,
        }
    }

    /// The printer's identifying name.
    pub fn name(&self) -> (r: &str)
        ensures
            r@ == self@.name,
    {
        self.name.as_str()
    }

    /// The printer's model label.
    pub fn model_name(&self) -> (r: &str)
        ensures
            r@ == self@.model_name,
    {
        self.model_name.as_str()
    }

    /// Whether the printer is connected.
    pub fn is_connected(&self) -> (r: bool)
        ensures
            r == self@.is_connected,
    {
        self.is_connected
    }

    /// Whether the printer is attached to the host itself.
    pub fn is_local(&self) -> (r: bool)
        ensures
            r == self@.is_local,
    {
        self.is_local
    }

    /// Whether the printer is a twin-roll model.
    pub fn is_twin_turbo(&self) -> (r: bool)
        ensures
            r == self@.is_twin_turbo,
    {
        self.is_twin_turbo
    }
}

/// Decodes a whole listing, entry by entry, keeping document order.
pub fn decode_printers(raw: Vec<RawPrinter>) -> (r: Vec<PrinterResponse>)
    ensures
        r@.len() == raw@.len(),
        forall|i: int| 0 <= i < raw@.len() ==> (#[trigger] r@[i])@ == printer_of(raw@[i]),
{
    let mut rest = raw;
    let mut out: Vec<PrinterResponse> = Vec::new();
    let ghost orig = rest@;
    while rest.len() > 0
        invariant
            out@.len() + rest@.len() == orig.len(),
            rest@ == orig.subrange(out@.len() as int, orig.len() as int),
            forall|i: int| 0 <= i < out@.len() ==> (#[trigger] out@[i])@ == printer_of(orig[i]),
        decreases rest@.len(),
    {
        let entry = rest.remove(0);
        out.push(PrinterResponse::from_raw(entry));
    }
    out
}

} // verus!
