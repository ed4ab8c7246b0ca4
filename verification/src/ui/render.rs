//! What the viewer shows, as styled text: the request list, the detail pane
//! and the status line. Turning this into a terminal frame is left to the
//! renderer.
use vstd::prelude::*;
use vstd::string::*;
use crate::headers::{pairs_of, sorted_by_name};
use crate::json::formatted_text;
use crate::request::{full_path_text, text_of, CapturedRequest};
use crate::text::{decimal_string, decimal_text, lines_of, pad_right, padded, same_text, text_lines};
use crate::timestamp::{clock_text, rfc3339_text};
use crate::ui::app::{App, ViewerState};

verus! {

/// How many lines of a body are shown while it is not expanded.
pub const BODY_PREVIEW_LINES: usize = 20;

/// The width that a method is filled up to in the request list.
pub const METHOD_WIDTH: usize = 6;

/// The colour in which a method is shown.
#[derive(Clone, Copy, Debug, PartialEq, Eq)]
pub enum MethodColor {
    Green,
    Blue,
    Yellow,
    Red,
    Magenta,
    White,
}

/// The role of a piece of text, by which the renderer picks its style.
#[derive(Clone, Copy, Debug, PartialEq, Eq)]
pub enum Tone {
    Plain,
    Label,
    Value,
    Method(MethodColor),
    Heading,
    HeaderName,
    Body,
    Dim,
    Selected,
    Unselected,
}

/// A piece of text with its role.
#[derive(Debug)]
pub struct Span {
    pub text: String,
    pub tone: Tone,
}

/// A piece of text with its role, as plain values.
pub ghost struct SpanView {
    pub text: Seq<char>,
    pub tone: Tone,
}

impl View for Span {
    type V = SpanView;

    open spec fn view(&self) -> SpanView {
        SpanView { text: self.text@, tone: self.tone }
    }
}

/// A line as plain values.
pub open spec fn line_view(line: Seq<Span>) -> Seq<SpanView> {
    Seq::new(line.len(), |i: int| line[i]@)
}

/// Lines as plain values.
pub open spec fn lines_view(lines: Seq<Vec<Span>>) -> Seq<Seq<SpanView>> {
    Seq::new(lines.len(), |i: int| line_view(lines[i]@))
}

/// The texts of a list of lines.
pub open spec fn texts_of(lines: Seq<String>) -> Seq<Seq<char>> {
    Seq::new(lines.len(), |i: int| lines[i]@)
}

/// The texts of an optional list of lines.
pub open spec fn body_texts(body: Option<Vec<String>>) -> Option<Seq<Seq<char>>> {
    match body {
        Some(lines) => Some(texts_of(lines@)),
        None => None,
    }
}

/// A piece of text with its role.
pub open spec fn span(text: Seq<char>, tone: Tone) -> SpanView {
    SpanView { text, tone }
}

/// The colour of a method: the five common methods, written in capitals,
/// have one each; every other method is white.
pub open spec fn method_color_of(method: Seq<char>) -> MethodColor {
    if method == "GET"@ {
        MethodColor::Green
    } else if method == "POST"@ {
        MethodColor::Blue
    } else if method == "PUT"@ {
        MethodColor::Yellow
    } else if method == "DELETE"@ {
        MethodColor::Red
    } else if method == "PATCH"@ {
        MethodColor::Magenta
    } else {
        MethodColor::White
    }
}

/// A line of the request list: time of day, method filled up to six
/// characters, and path, which alone shows whether the line is selected.
pub open spec fn list_line(
    clock: Seq<char>,
    method: Seq<char>,
    path: Seq<char>,
    selected: bool,
) -> Seq<SpanView> {
    seq![
        span(clock + " "@, Tone::Dim),
        span(padded(method, METHOD_WIDTH as nat) + " "@, Tone::Method(method_color_of(method))),
        span(
            path,
            if selected {
                Tone::Selected
            } else {
                Tone::Unselected
            },
        ),
    ]
}

/// The request list: one line for each request, newest first.
pub open spec fn list_view(state: ViewerState) -> Seq<Seq<SpanView>> {
    Seq::new(
        state.history.len(),
        |i: int|
            list_line(
                clock_text(state.history[i].timestamp.seconds()),
                state.history[i].method@,
                state.history[i].path@,
                i == state.selected_index,
            ),
    )
}

/// The screen row of the selection marker in a list pane that starts at row
/// `top` and is `height` rows high, borders included: one row below the top
/// border for each request above the selected one. No marker where nothing
/// is selected or the row would fall on or below the bottom border.
pub open spec fn marker_row_of(top: int, height: int, selected: int, count: int) -> Option<int> {
    if 0 <= selected < count && top + 1 + selected < top + height - 1 && top + 1 + selected
        <= u16::MAX {
        Some(top + 1 + selected)
    } else {
        None
    }
}

/// The status line: where the inspector listens, how many requests it has
/// captured, and the keys.
pub open spec fn status_view(address: Seq<char>, count: nat) -> Seq<char> {
    " Listening on "@ + address + " | "@ + decimal_text(count) + " request"@ + (if count == 1 {
        Seq::<char>::empty()
    } else {
        "s"@
    }) + " | q: quit | c: clear | j/k: navigate | Enter: expand"@
}

/// A line with a label and a value.
pub open spec fn field(label: Seq<char>, value: Seq<char>, tone: Tone) -> Seq<SpanView> {
    seq![span(label, Tone::Label), span(value, tone)]
}

/// A line that holds one piece of text.
pub open spec fn single(text: Seq<char>, tone: Tone) -> Seq<SpanView> {
    seq![span(text, tone)]
}

/// The line for one header: the indented name with a colon, and the value.
pub open spec fn header_line(pair: (Seq<char>, Seq<char>)) -> Seq<SpanView> {
    seq![span("  "@ + pair.0 + ": "@, Tone::HeaderName), span(pair.1, Tone::Value)]
}

/// The lines for a listing of headers, in the order of the listing.
pub open spec fn header_lines(listing: Seq<(Seq<char>, Seq<char>)>) -> Seq<Seq<SpanView>> {
    Seq::new(listing.len(), |i: int| header_line(listing[i]))
}

/// The line for one line of the body.
pub open spec fn body_line(line: Seq<char>) -> Seq<SpanView> {
    single("  "@ + line, Tone::Body)
}

/// The line that says how many lines of the body are not shown.
pub open spec fn hint_line(hidden: nat) -> Seq<SpanView> {
    single(
        "  ... ("@ + decimal_text(hidden) + " more lines, press Enter to expand)"@,
        Tone::Dim,
    )
}

/// The lines for the body. An absent body is marked as empty. An expanded
/// body is shown whole. Otherwise at most twenty lines are shown, followed
/// by a hint where more were left out.
pub open spec fn body_part(body: Option<Seq<Seq<char>>>, expanded: bool) -> Seq<Seq<SpanView>> {
    match body {
        None => seq![single("  (empty)"@, Tone::Dim)],
        Some(lines) => if expanded || lines.len() <= BODY_PREVIEW_LINES {
            Seq::new(lines.len(), |i: int| body_line(lines[i]))
        } else {
            Seq::new(BODY_PREVIEW_LINES as nat, |i: int| body_line(lines[i])).push(
                hint_line((lines.len() - BODY_PREVIEW_LINES) as nat),
            )
        },
    }
}

/// Everything the detail pane says of a request, before scrolling.
pub open spec fn detail_view(
    stamp: Seq<char>,
    method: Seq<char>,
    full_path: Seq<char>,
    listing: Seq<(Seq<char>, Seq<char>)>,
    body: Option<Seq<Seq<char>>>,
    expanded: bool,
) -> Seq<Seq<SpanView>> {
    seq![
        field("Timestamp: "@, stamp, Tone::Value),
        field("Method: "@, method, Tone::Method(method_color_of(method))),
        field("Path: "@, full_path, Tone::Value),
        single(Seq::empty(), Tone::Plain),
        single("Headers:"@, Tone::Heading),
    ] + header_lines(listing) + seq![
        single(Seq::empty(), Tone::Plain),
        single("Body:"@, Tone::Heading),
    ] + body_part(body, expanded)
}

/// What is left of some lines once the first `offset` are scrolled away.
pub open spec fn scrolled<A>(lines: Seq<A>, offset: int) -> Seq<A> {
    if 0 <= offset < lines.len() {
        lines.skip(offset)
    } else if offset < 0 {
        lines
    } else {
        Seq::empty()
    }
}

/// The lines of the body of a request as the detail pane shows them: those
/// of the indented rendering where the body is a JSON document.
pub open spec fn shown_body(request: CapturedRequest) -> Option<Seq<Seq<char>>> {
    match request.body {
        Some(b) => Some(lines_of(formatted_text(b@))),
        None => None,
    }
}

/// The detail pane: the selected request in full, its headers in dictionary
/// order of their names, scrolled by the detail scroll position; or a note
/// that nothing is selected.
pub open spec fn details_view(state: ViewerState) -> Seq<Seq<SpanView>> {
    match state.selected() {
        Some(request) => scrolled(
            detail_view(
                rfc3339_text(request.timestamp.seconds(), request.timestamp.nanoseconds()),
                request.method@,
                full_path_text(request.path@, text_of(request.query)),
                sorted_by_name(request.headers.pairs()),
                shown_body(request),
                state.body_expanded,
            ),
            state.detail_scroll,
        ),
        None => seq![single("No request selected"@, Tone::Dim)],
    }
}

/// Everything the viewer shows at one moment.
#[derive(Debug)]
pub struct Screen {
    /// The request list, one line for each request.
    pub list: Vec<Vec<Span>>,
    /// The screen row of the selection marker, if it is drawn.
    pub marker: Option<u16>,
    /// The detail pane.
    pub details: Vec<Vec<Span>>,
    /// The status line.
    pub status: String,
}

/// Everything the viewer shows at one moment, as plain values.
pub ghost struct ScreenView {
    pub list: Seq<Seq<SpanView>>,
    pub marker: Option<int>,
    pub details: Seq<Seq<SpanView>>,
    pub status: Seq<char>,
}

impl View for Screen {
    type V = ScreenView;

    open spec fn view(&self) -> ScreenView {
        ScreenView {
            list: lines_view(self.list@),
            marker: match self.marker {
                Some(row) => Some(row as int),
                None => None,
            },
            details: lines_view(self.details@),
            status: self.status@,
        }
    }
}

/// What a state looks like when the list pane starts at screen row `top` and
/// is `height` rows high, borders included.
pub open spec fn screen_view(state: ViewerState, top: int, height: int) -> ScreenView {
    ScreenView {
        list: list_view(state),
        marker: marker_row_of(top, height, state.selected_index, state.history.len() as int),
        details: details_view(state),
        status: status_view(state.listening_address, state.history.len()),
    }
}

impl Clone for Span {
    fn clone(&self) -> (copy: Span)
        ensures
            copy@ == self@,
    {
        Span { text: self.text.clone(), tone: self.tone }
    }
}

/// The colour in which a method is shown.
pub fn method_color(method: &str) -> (color: MethodColor)
    ensures
        color == method_color_of(method@),
{
    if same_text(method, "GET") {
        MethodColor::Green
    } else if same_text(method, "POST") {
        MethodColor::Blue
    } else if same_text(method, "PUT") {
        MethodColor::Yellow
    } else if same_text(method, "DELETE") {
        MethodColor::Red
    } else if same_text(method, "PATCH") {
        MethodColor::Magenta
    } else {
        MethodColor::White
    }
}

/// A line that holds one piece of text.
pub fn single_line(text: String, tone: Tone) -> (line: Vec<Span>)
    ensures
        line_view(line@) == single(text@, tone),
{
    let mut line: Vec<Span> = Vec::new();
    line.push(Span { text, tone });
    assert(line_view(line@) =~= single(text@, tone));
    line
}

/// A line with a label and a value.
pub fn field_line(label: &str, value: String, tone: Tone) -> (line: Vec<Span>)
    ensures
        line_view(line@) == field(label@, value@, tone),
{
    let mut line: Vec<Span> = Vec::new();
    line.push(Span { text: String::from_str(label), tone: Tone::Label });
    line.push(Span { text: value, tone });
    assert(line_view(line@) =~= field(label@, value@, tone));
    line
}

/// The line of the request list for one request.
pub fn request_line(request: &CapturedRequest, selected: bool) -> (line: Vec<Span>)
    ensures
        line_view(line@) == list_line(
            clock_text(request.timestamp.seconds()),
            request.method@,
            request.path@,
            selected,
        ),
{
    let mut clock = request.timestamp_display();
    clock.append(" ");
    let mut method = pad_right(request.method.as_str(), METHOD_WIDTH);
    method.append(" ");
    let mut line: Vec<Span> = Vec::new();
    line.push(Span { text: clock, tone: Tone::Dim });
    line.push(Span { text: method, tone: Tone::Method(method_color(request.method.as_str())) });
    line.push(
        Span {
            text: request.path.clone(),
            tone: if selected {
                Tone::Selected
            } else {
                Tone::Unselected
            },
        },
    );
    assert(line_view(line@) =~= list_line(
        clock_text(request.timestamp.seconds()),
        request.method@,
        request.path@,
        selected,
    ));
    line
}

/// The request list.
pub fn request_list(app: &App) -> (lines: Vec<Vec<Span>>)
    ensures
        lines_view(lines@) == list_view(app@),
{
    let mut lines: Vec<Vec<Span>> = Vec::new();
    let mut i: usize = 0;
    while i < app.requests.len()
        invariant
            i <= app.requests.len(),
            lines@.len() == i,
            forall|k: int| 0 <= k < i ==> line_view(#[trigger] lines@[k]@) == list_view(app@)[k],
        decreases app.requests.len() - i,
    {
        let line = request_line(&app.requests[i], i == app.selected_index);
        lines.push(line);
        i += 1;
    }
    assert(lines_view(lines@) =~= list_view(app@));
    lines
}

/// The screen row of the selection marker, if it is to be drawn.
pub fn marker_row(top: u16, height: u16, selected: usize, count: usize) -> (row: Option<u16>)
    ensures
        match row {
            Some(r) => marker_row_of(top as int, height as int, selected as int, count as int)
                == Some(r as int),
            None => marker_row_of(top as int, height as int, selected as int, count as int)
                is None,
        },
{
    if selected < count && selected < u16::MAX as usize {
        let row: u32 = top as u32 + 1 + selected as u32;
        if height >= 1 && row < top as u32 + height as u32 - 1 && row <= u16::MAX as u32 {
            return Some(row as u16);
        }
    }
    None
}

/// The status line.
pub fn status_text(address: &str, count: usize) -> (text: String)
    ensures
        text@ == status_view(address@, count as nat),
{
    let mut text = String::from_str(" Listening on ");
    text.append(address);
    text.append(" | ");
    text.append(decimal_string(count as u64).as_str());
    text.append(" request");
    if count != 1 {
        text.append("s");
    } else {
        assert(text@ + Seq::<char>::empty() =~= text@);
    }
    text.append(" | q: quit | c: clear | j/k: navigate | Enter: expand");
    text
}

/// Appends the lines for a listing of headers.
pub fn push_header_lines(lines: &mut Vec<Vec<Span>>, listing: &Vec<(String, String)>)
    ensures
        lines_view(final(lines)@) == lines_view(old(lines)@) + header_lines(pairs_of(listing@)),
{
    let ghost start = lines_view(lines@);
    let mut i: usize = 0;
    assert(lines_view(lines@) =~= start + header_lines(pairs_of(listing@)).take(0));
    while i < listing.len()
        invariant
            i <= listing.len(),
            lines_view(lines@) == start + header_lines(pairs_of(listing@)).take(i as int),
        decreases listing.len() - i,
    {
        let mut name = String::from_str("  ");
        name.append(listing[i].0.as_str());
        name.append(": ");
        let mut line: Vec<Span> = Vec::new();
        line.push(Span { text: name, tone: Tone::HeaderName });
        line.push(Span { text: listing[i].1.clone(), tone: Tone::Value });
        assert(line_view(line@) =~= header_line(pairs_of(listing@)[i as int]));
        let ghost before = lines_view(lines@);
        lines.push(line);
        assert(lines_view(lines@) =~= before.push(line_view(line@)));
        assert(lines_view(lines@) =~= start + header_lines(pairs_of(listing@)).take(i as int + 1));
        i += 1;
    }
    assert(header_lines(pairs_of(listing@)).take(i as int) =~= header_lines(pairs_of(listing@)));
}

/// Appends the lines for the body.
pub fn push_body_lines(lines: &mut Vec<Vec<Span>>, body: &Option<Vec<String>>, expanded: bool)
    ensures
        lines_view(final(lines)@) == lines_view(old(lines)@) + body_part(
            body_texts(*body),
            expanded,
        ),
{
    let ghost start = lines_view(lines@);
    match body {
        None => {
            let line = single_line(String::from_str("  (empty)"), Tone::Dim);
            lines.push(line);
            assert(lines_view(lines@) =~= start + body_part(body_texts(*body), expanded));
        },
        Some(texts) => {
            let ghost all = texts_of(texts@);
            let shown: usize = if expanded || texts.len() <= BODY_PREVIEW_LINES {
                texts.len()
            } else {
                BODY_PREVIEW_LINES
            };
            let ghost plain = Seq::new(shown as nat, |k: int| body_line(all[k]));
            let mut i: usize = 0;
            assert(lines_view(lines@) =~= start + plain.take(0));
            while i < shown
                invariant
                    i <= shown <= texts.len(),
                    all == texts_of(texts@),
                    plain == Seq::new(shown as nat, |k: int| body_line(all[k])),
                    lines_view(lines@) == start + plain.take(i as int),
                decreases shown - i,
            {
                let mut text = String::from_str("  ");
                text.append(texts[i].as_str());
                let line = single_line(text, Tone::Body);
                assert(line_view(line@) == body_line(all[i as int]));
                let ghost before = lines_view(lines@);
                lines.push(line);
                assert(lines_view(lines@) =~= before.push(line_view(line@)));
                assert(lines_view(lines@) =~= start + plain.take(i as int + 1));
                i += 1;
            }
            assert(plain.take(i as int) =~= plain);
            if shown < texts.len() {
                let mut text = String::from_str("  ... (");
                text.append(decimal_string((texts.len() - BODY_PREVIEW_LINES) as u64).as_str());
                text.append(" more lines, press Enter to expand)");
                let line = single_line(text, Tone::Dim);
                let ghost before = lines_view(lines@);
                lines.push(line);
                assert(lines_view(lines@) =~= before.push(line_view(line@)));
                assert(lines_view(lines@) =~= start + body_part(body_texts(*body), expanded));
            } else {
                assert(lines_view(lines@) =~= start + body_part(body_texts(*body), expanded));
            }
        },
    }
}

/// Everything the detail pane says of a request, before scrolling: time,
/// method and path, the headers as listed, and the body.
pub fn detail_lines(
    stamp: String,
    method: &str,
    full_path: String,
    listing: &Vec<(String, String)>,
    body: &Option<Vec<String>>,
    expanded: bool,
) -> (lines: Vec<Vec<Span>>)
    ensures
        lines_view(lines@) == detail_view(
            stamp@,
            method@,
            full_path@,
            pairs_of(listing@),
            body_texts(*body),
            expanded,
        ),
{
    let mut lines: Vec<Vec<Span>> = Vec::new();
    lines.push(field_line("Timestamp: ", stamp, Tone::Value));
    lines.push(field_line("Method: ", String::from_str(method), Tone::Method(method_color(method))));
    lines.push(field_line("Path: ", full_path, Tone::Value));
    lines.push(single_line(String::new(), Tone::Plain));
    lines.push(single_line(String::from_str("Headers:"), Tone::Heading));
    let ghost head = lines_view(lines@);
    assert(head =~= seq![
        field("Timestamp: "@, stamp@, Tone::Value),
        field("Method: "@, method@, Tone::Method(method_color_of(method@))),
        field("Path: "@, full_path@, Tone::Value),
        single(Seq::empty(), Tone::Plain),
        single("Headers:"@, Tone::Heading),
    ]);
    push_header_lines(&mut lines, listing);
    let ghost upto_headers = lines_view(lines@);
    lines.push(single_line(String::new(), Tone::Plain));
    lines.push(single_line(String::from_str("Body:"), Tone::Heading));
    assert(lines_view(lines@) =~= upto_headers + seq![
        single(Seq::empty(), Tone::Plain),
        single("Body:"@, Tone::Heading),
    ]);
    push_body_lines(&mut lines, body, expanded);
    lines
}

/// Drops the first `offset` lines.
pub fn scroll_lines(lines: Vec<Vec<Span>>, offset: usize) -> (rest: Vec<Vec<Span>>)
    ensures
        lines_view(rest@) == scrolled(lines_view(lines@), offset as int),
{
    let mut lines = lines;
    let ghost all = lines@;
    if offset < lines.len() {
        let rest = lines.split_off(offset);
        assert(lines_view(rest@) =~= scrolled(lines_view(all), offset as int));
        rest
    } else {
        let rest: Vec<Vec<Span>> = Vec::new();
        assert(lines_view(rest@) =~= scrolled(lines_view(all), offset as int));
        rest
    }
}

/// The detail pane: the selected request in full, scrolled by the detail
/// scroll position, or a note that nothing is selected.
pub fn request_details(app: &App) -> (lines: Vec<Vec<Span>>)
    ensures
        lines_view(lines@) == details_view(app@),
{
    match app.selected_request() {
        Some(request) => {
            let listing = request.headers.sorted();
            let body = match request.formatted_body() {
                Some(text) => Some(text_lines(text.as_str())),
                None => None,
            };
            assert(body_texts(body) =~= shown_body(*request)) by {
                if body is Some {
                    assert(texts_of(body->0@) =~= lines_of(formatted_text(request.body->0@)));
                }
            }
            let all = detail_lines(
                request.timestamp.rfc3339(),
                request.method.as_str(),
                request.full_path(),
                &listing,
                &body,
                app.body_expanded,
            );
            scroll_lines(all, app.detail_scroll)
        },
        None => {
            let mut lines: Vec<Vec<Span>> = Vec::new();
            lines.push(single_line(String::from_str("No request selected"), Tone::Dim));
            assert(lines_view(lines@) =~= details_view(app@));
            lines
        },
    }
}

/// What the viewer shows, given where the list pane lies on the screen. The
/// result depends on the state alone: drawing changes nothing.
pub fn render(app: &App, list_top: u16, list_height: u16) -> (screen: Screen)
    ensures
        screen@ == screen_view(app@, list_top as int, list_height as int),
{
    Screen {
        list: request_list(app),
        marker: marker_row(list_top, list_height, app.selected_index, app.requests.len()),
        details: request_details(app),
        status: status_text(app.listening_address.as_str(), app.requests.len()),
    }
}

} // verus!
