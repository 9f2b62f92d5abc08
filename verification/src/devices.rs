//! `irl devices`: the lines that list capture and playback devices.
//!
//! Every printed identifier is a valid `--video` or `--audio` value for
//! `irl publish`.

use vstd::prelude::*;

use crate::text;

verus! {

/// How many sizes to print per camera before summarising the rest.
pub const MODES_SHOWN: usize = 6;

/// The binary that drives the Raspberry Pi camera.
pub const RPICAM_VID: &'static str = "rpicam-vid";

/// How many seconds `--list-cameras` may run.
pub const LIST_TIMEOUT: u64 = 5;

/// A size a camera offers, with its frame rates ready to print.
#[derive(Debug)]
pub struct Mode {
    pub width: u32,
    pub height: u32,
    /// The frame rates, formatted for reading.
    pub framerates: Vec<String>,
}

/// A camera, with its modes where the platform reports them.
#[derive(Debug)]
pub struct CameraInfo {
    pub id: String,
    pub name: String,
    pub modes: Option<Vec<Mode>>,
}

/// A size as `<width>x<height>`.
pub open spec fn size_text(width: nat, height: nat) -> Seq<char> {
    text::decimal(width) + "x"@ + text::decimal(height)
}

fn size_string(width: u32, height: u32) -> (res: String)
    ensures
        res@ == size_text(width as nat, height as nat),
{
    text::decimal_text(width as u64).concat("x").concat(
        text::decimal_text(height as u64).as_str(),
    )
}

impl Mode {
    /// The line under its camera: the size and the rates it offers.
    pub open spec fn line(self) -> Seq<char> {
        let size = size_text(self.width as nat, self.height as nat);
        if self.framerates@.len() == 0 {
            size + "  (rates not listed)"@
        } else {
            size + "  "@ + text::joined(text::string_list(self.framerates@), ", "@) + " fps"@
        }
    }
}

/// Formats one size and its frame rates as a line under its camera.
///
/// No rates means that the driver described a continuous range.
pub fn describe(mode: &Mode) -> (res: String)
    ensures
        res@ == mode.line(),
{
    let size: String = size_string(mode.width, mode.height);
    if mode.framerates.len() == 0 {
        return size.concat("  (rates not listed)");
    }
    size.concat("  ").concat(text::join(mode.framerates.as_slice(), ", ").as_str()).concat(" fps")
}

/// The lines of the first modes of a camera, and how many more there are.
pub open spec fn mode_lines(modes: Seq<Mode>) -> Seq<Seq<char>> {
    let shown = if modes.len() <= MODES_SHOWN {
        modes.len() as int
    } else {
        MODES_SHOWN as int
    };
    let lines = Seq::new(shown as nat, |i: int| "      "@ + modes[i].line());
    if modes.len() > MODES_SHOWN {
        lines.push(
            "      ... and "@ + text::decimal((modes.len() - MODES_SHOWN) as nat) + " more"@,
        )
    } else {
        lines
    }
}

/// The lines of one camera.
pub open spec fn camera_entry(camera: CameraInfo) -> Seq<Seq<char>> {
    let head = seq!["  cam:"@ + camera.id@ + "  "@ + camera.name@];
    match camera.modes {
        Some(modes) => head + mode_lines(modes@),
        None => head,
    }
}

/// The lines of the cameras, one after another.
pub open spec fn camera_entries(cameras: Seq<CameraInfo>) -> Seq<Seq<char>>
    decreases cameras.len(),
{
    if cameras.len() == 0 {
        seq![]
    } else {
        camera_entries(cameras.drop_last()) + camera_entry(cameras.last())
    }
}

/// A list of cameras, or the text of why there is none.
pub open spec fn camera_section(cameras: Result<Vec<CameraInfo>, String>) -> Seq<Seq<char>> {
    let body = match cameras {
        Ok(cameras) => if cameras@.len() == 0 {
            seq!["  (none found)"@]
        } else {
            camera_entries(cameras@)
        },
        Err(err) => seq!["  (unavailable: "@ + err@ + ")"@],
    };
    seq!["cameras:"@] + body + seq![""@]
}

/// Returns the camera lines, with the sizes and frame rates each one reports.
///
/// A rate the device lacks is silently replaced by the nearest one, so this
/// list is how a user picks `--renditions` values. A camera that reports no
/// modes still has a usable identifier.
pub fn cameras(found: &Result<Vec<CameraInfo>, String>) -> (res: Vec<String>)
    ensures
        text::string_list(res@) == camera_section(*found),
{
    let mut out: Vec<String> = Vec::new();
    out.push("cameras:".to_owned());
    let ghost head = seq!["cameras:"@];
    assert(text::string_list(out@) =~= head);
    match found {
        Ok(cameras) => {
            if cameras.len() == 0 {
                out.push("  (none found)".to_owned());
            } else {
                let mut i: usize = 0;
                assert(cameras@.take(0) =~= seq![]);
                assert(text::string_list(out@) =~= head + camera_entries(cameras@.take(0)));
                while i < cameras.len()
                    invariant
                        i <= cameras.len(),
                        text::string_list(out@) == head + camera_entries(cameras@.take(i as int)),
                    decreases cameras.len() - i,
                {
                    let ghost longer = cameras@.take(i + 1);
                    assert(longer.drop_last() =~= cameras@.take(i as int));
                    let ghost before = text::string_list(out@);
                    push_camera(&mut out, &cameras[i]);
                    assert(before + camera_entry(cameras@[i as int]) =~= head + (camera_entries(
                        cameras@.take(i as int),
                    ) + camera_entry(cameras@[i as int])));
                    i += 1;
                }
                assert(cameras@.take(cameras@.len() as int) =~= cameras@);
            }
        },
        Err(err) => {
            out.push("  (unavailable: ".to_owned().concat(err.as_str()).concat(")"));
        },
    }
    out.push("".to_owned());
    assert(text::string_list(out@) =~= camera_section(*found));
    out
}

fn push_camera(out: &mut Vec<String>, camera: &CameraInfo)
    ensures
        text::string_list(final(out)@) == text::string_list(old(out)@) + camera_entry(*camera),
{
    let ghost start = text::string_list(out@);
    let head: String = "  cam:".to_owned().concat(camera.id.as_str()).concat("  ").concat(
        camera.name.as_str(),
    );
    out.push(head);
    let ghost headed = start.push(head@);
    assert(text::string_list(out@) =~= headed);
    if let Some(modes) = &camera.modes {
        let shown: usize = if modes.len() <= MODES_SHOWN {
            modes.len()
        } else {
            MODES_SHOWN
        };
        let ghost want = mode_lines(modes@);
        let mut i: usize = 0;
        assert(want.take(0) =~= seq![]);
        assert(text::string_list(out@) =~= headed + want.take(0));
        while i < shown
            invariant
                i <= shown <= modes@.len(),
                shown <= want.len(),
                shown == if modes@.len() <= MODES_SHOWN {
                    modes@.len() as int
                } else {
                    MODES_SHOWN as int
                },
                want == mode_lines(modes@),
                text::string_list(out@) == headed + want.take(i as int),
            decreases shown - i,
        {
            let line: String = "      ".to_owned().concat(describe(&modes[i]).as_str());
            assert(want[i as int] == line@);
            let ghost before = text::string_list(out@);
            out.push(line);
            assert(text::string_list(out@) =~= before.push(line@));
            assert(want.take(i + 1) =~= want.take(i as int).push(want[i as int]));
            assert(before.push(line@) =~= headed + want.take(i + 1));
            i += 1;
        }
        if modes.len() > MODES_SHOWN {
            let more: String = "      ... and ".to_owned().concat(
                text::decimal_text((modes.len() - MODES_SHOWN) as u64).as_str(),
            ).concat(" more");
            let ghost before = text::string_list(out@);
            out.push(more);
            assert(text::string_list(out@) =~= before.push(more@));
            assert(want =~= want.take(shown as int).push(more@));
        } else {
            assert(want =~= want.take(shown as int));
        }
        assert(text::string_list(out@) =~= headed + want);
        assert(headed + want =~= start + (seq![head@] + want));
    } else {
        assert(headed =~= start + seq![head@]);
    }
}

/// The entry of a `--list-cameras` line, if it lists a camera.
pub open spec fn rpicam_entry(line: Seq<char>) -> Option<Seq<char>> {
    match text::split_on(line, " : "@) {
        Some((index, description)) => if text::u32_of(text::trimmed(index)) is Some {
            Some("rpicam  "@ + text::trimmed(description))
        } else {
            None
        },
        None => None,
    }
}

/// Turns one `--list-cameras` line into a printable entry.
///
/// Camera lines look like `0 : imx219 [3280x2464 10-bit RGGB] (...)`. The index
/// is dropped because `--video rpicam` takes no id.
pub fn camera_line(line: &str) -> (res: Option<String>)
    ensures
        text::opt_text(res) == rpicam_entry(line@),
{
    proof {
        reveal_strlit(" : ");
    }
    match text::split_pattern(line, " : ") {
        Some((index, description)) => match text::parse_u32(text::trim(index)) {
            Some(_) => Some("rpicam  ".to_owned().concat(text::trim(description))),
            None => None,
        },
        None => None,
    }
}

/// The entries of the lines that list a camera, in order.
pub open spec fn rpicam_entries(lines: Seq<Seq<char>>) -> Seq<Seq<char>>
    decreases lines.len(),
{
    if lines.len() == 0 {
        seq![]
    } else {
        let before = rpicam_entries(lines.drop_last());
        match rpicam_entry(lines.last()) {
            Some(entry) => before.push(entry),
            None => before,
        }
    }
}

/// What came of running `rpicam-vid --list-cameras`.
#[derive(Debug)]
pub enum Listing {
    /// The binary is not installed.
    Missing,
    /// It would not run, with the reason.
    Failed(String),
    /// It did not finish in time.
    TimedOut,
    /// It printed this.
    Printed(String),
}

/// The cameras a listing reports, or a note for the section.
pub open spec fn rpicam_cameras(listing: Listing) -> Result<Seq<Seq<char>>, Seq<char>> {
    match listing {
        Listing::Missing => Err("rpicam-vid is not on PATH"@),
        Listing::Failed(err) => Err("rpicam-vid would not run: "@ + err@),
        Listing::TimedOut => Err("rpicam-vid --list-cameras did not finish within 5s"@),
        Listing::Printed(out) => Ok(rpicam_entries(text::lines_of(out@))),
    }
}

/// A result with a list of texts, as character sequences.
pub open spec fn list_outcome(res: Result<Vec<String>, String>) -> Result<
    Seq<Seq<char>>,
    Seq<char>,
> {
    match res {
        Ok(list) => Ok(text::string_list(list@)),
        Err(text) => Err(text@),
    }
}

/// Returns the cameras that `rpicam-vid --list-cameras` reports, as printable
/// lines.
pub fn rpicam(listing: Listing) -> (res: Result<Vec<String>, String>)
    ensures
        list_outcome(res) == rpicam_cameras(listing),
{
    let out: String = match listing {
        Listing::Missing => return Err("rpicam-vid is not on PATH".to_owned()),
        Listing::Failed(err) => return Err(
            "rpicam-vid would not run: ".to_owned().concat(err.as_str()),
        ),
        Listing::TimedOut => return Err(
            "rpicam-vid --list-cameras did not finish within 5s".to_owned(),
        ),
        Listing::Printed(out) => out,
    };
    let lines = text::lines(out.as_str());
    let ghost all = text::str_list(lines@);
    let mut found: Vec<String> = Vec::new();
    let mut i: usize = 0;
    assert(all.take(0) =~= seq![]);
    assert(text::string_list(found@) =~= seq![]);
    while i < lines.len()
        invariant
            i <= lines.len(),
            all == text::str_list(lines@),
            text::string_list(found@) == rpicam_entries(all.take(i as int)),
        decreases lines.len() - i,
    {
        let ghost longer = all.take(i + 1);
        assert(longer.drop_last() =~= all.take(i as int));
        assert(longer.last() == lines@[i as int]@);
        let ghost before = text::string_list(found@);
        if let Some(entry) = camera_line(lines[i]) {
            found.push(entry);
            assert(text::string_list(found@) =~= before.push(entry@));
        }
        i += 1;
    }
    assert(all.take(all.len() as int) =~= all);
    Ok(found)
}

/// The lines of a section: its title, its entries or a note, and a blank line.
pub open spec fn section_lines(title: Seq<char>, devices: Result<Seq<Seq<char>>, Seq<char>>) -> Seq<
    Seq<char>,
> {
    let body = match devices {
        Ok(devices) => if devices.len() == 0 {
            seq!["  (none found)"@]
        } else {
            Seq::new(devices.len(), |i: int| "  "@ + devices[i])
        },
        Err(err) => seq!["  (unavailable: "@ + err + ")"@],
    };
    seq![title + ":"@] + body + seq![""@]
}

/// Returns the lines of one section, with a failed enumeration as a note.
///
/// A machine with no camera driver still gets to see its microphones.
pub fn section(title: &str, devices: &Result<Vec<String>, String>) -> (res: Vec<String>)
    ensures
        text::string_list(res@) == section_lines(title@, list_outcome(*devices)),
{
    let mut out: Vec<String> = Vec::new();
    out.push(title.to_owned().concat(":"));
    match devices {
        Ok(devices) => {
            if devices.len() == 0 {
                out.push("  (none found)".to_owned());
            } else {
                let mut i: usize = 0;
                while i < devices.len()
                    invariant
                        i <= devices.len(),
                        out@.len() == i + 1,
                        out@[0]@ == title@ + ":"@,
                        forall|j: int|
                            0 <= j < i ==> (#[trigger] out@[j + 1])@ == "  "@ + devices@[j]@,
                    decreases devices.len() - i,
                {
                    out.push("  ".to_owned().concat(devices[i].as_str()));
                    i += 1;
                }
                proof {
                    let body = Seq::new(devices@.len(), |i: int| "  "@ + devices@[i]@);
                    assert forall|k: int| 0 <= k < body.len() implies out@[k + 1]@
                        == body[k] by {}
                }
            }
        },
        Err(err) => {
            out.push("  (unavailable: ".to_owned().concat(err.as_str()).concat(")"));
        },
    }
    out.push("".to_owned());
    proof {
        let got = text::string_list(out@);
        let want = section_lines(title@, list_outcome(*devices));
        assert(got.len() == want.len());
        assert forall|k: int| 0 <= k < got.len() implies got[k] == want[k] by {
            if let Ok(devices) = devices {
                if 0 < k < got.len() - 1 && devices@.len() > 0 {
                    assert(out@[(k - 1) + 1]@ == "  "@ + devices@[k - 1]@);
                }
            }
        }
        assert(got =~= want);
    }
    out
}

/// Returns the entry of a display.
pub fn display_line(id: &str, name: &str, width: u32, height: u32) -> (res: String)
    ensures
        res@ == "screen:"@ + id@ + "  "@ + name@ + " ("@ + size_text(width as nat, height as nat)
            + ")"@,
{
    "screen:".to_owned().concat(id).concat("  ").concat(name).concat(" (").concat(
        size_string(width, height).as_str(),
    ).concat(")")
}

/// Returns the entry of a window.
pub fn window_line(id: &str, app: &str, title: &str, width: u32, height: u32) -> (res: String)
    ensures
        res@ == "window:"@ + id@ + "  "@ + app@ + " - "@ + title@ + " ("@ + size_text(
            width as nat,
            height as nat,
        ) + ")"@,
{
    "window:".to_owned().concat(id).concat("  ").concat(app).concat(" - ").concat(title).concat(
        " (",
    ).concat(size_string(width, height).as_str()).concat(")")
}

/// Returns the entry of an application.
pub fn app_line(id: &str, name: &str) -> (res: String)
    ensures
        res@ == "app:"@ + id@ + "  "@ + name@,
{
    "app:".to_owned().concat(id).concat("  ").concat(name)
}

/// The mark behind the default device.
pub open spec fn default_mark(default: bool) -> Seq<char> {
    if default {
        " (default)"@
    } else {
        ""@
    }
}

/// Returns the entry of an audio input.
pub fn input_line(id: &str, name: &str, default: bool) -> (res: String)
    ensures
        res@ == "mic:"@ + id@ + "  "@ + name@ + default_mark(default),
{
    let mark: &str = if default {
        " (default)"
    } else {
        ""
    };
    "mic:".to_owned().concat(id).concat("  ").concat(name).concat(mark)
}

/// Returns the entry of an audio output.
///
/// The id leads because it is what `irl watch --audio-output` takes.
pub fn output_line(id: &str, name: &str, default: bool) -> (res: String)
    ensures
        res@ == id@ + "  "@ + name@ + default_mark(default),
{
    let mark: &str = if default {
        " (default)"
    } else {
        ""
    };
    id.to_owned().concat("  ").concat(name).concat(mark)
}

/// A size is its width, an `x` and its height.
pub proof fn law_a_size_is_width_by_height(width: nat, height: nat)
    ensures
        text::split(size_text(width, height), seq!['x']) == Some(
            (text::decimal(width), text::decimal(height)),
        ),
{
    let size = size_text(width, height);
    let at = text::decimal(width).len();
    reveal_strlit("x");
    text::law_a_decimal_reads_back(width);
    assert(size[at as int] == 'x');
    assert(seq!['x'][0] == 'x');
    assert(seq!['x'].contains(size[at as int]));
    text::lemma_first_at(size, seq!['x'], at);
    assert(size.take(at as int) =~= text::decimal(width));
    assert(size.skip(at as int + 1) =~= text::decimal(height));
}

/// A mode is told by its size and by each of its rates, or that it has none.
pub proof fn law_a_mode_tells_its_rates(mode: Mode)
    ensures
        ({
            let size = size_text(mode.width as nat, mode.height as nat);
            &&& mode.line().len() > size.len()
            &&& mode.line().take(size.len() as int) == size
            &&& mode.framerates@.len() == 0 ==> mode.line() == size + "  (rates not listed)"@
            &&& mode.framerates@.len() == 1 ==> mode.line() == size + "  "@ + mode.framerates@[0]@
                + " fps"@
            &&& mode.framerates@.len() == 2 ==> mode.line() == size + "  "@ + mode.framerates@[0]@
                + ", "@ + mode.framerates@[1]@ + " fps"@
        }),
{
    let size = size_text(mode.width as nat, mode.height as nat);
    reveal_strlit("  (rates not listed)");
    reveal_strlit(" fps");
    reveal_strlit("  ");
    assert(mode.line().take(size.len() as int) =~= size);
    let rates = text::string_list(mode.framerates@);
    reveal_with_fuel(text::joined, 3);
    if rates.len() == 1 {
        assert(text::joined(rates, ", "@) =~= rates[0]);
    }
    if rates.len() == 2 {
        assert(rates.drop_last()[0] == rates[0]);
        assert(text::joined(rates, ", "@) =~= rates[0] + ", "@ + rates[1]);
        assert(mode.line() =~= size + "  "@ + mode.framerates@[0]@ + ", "@
            + mode.framerates@[1]@ + " fps"@);
    }
}

/// Up to six modes are listed in their order, and of the others it is told how many
/// they are.
pub proof fn law_six_modes_are_listed(modes: Seq<Mode>, i: int)
    ensures
        modes.len() <= 6 ==> mode_lines(modes).len() == modes.len(),
        modes.len() > 6 ==> mode_lines(modes).len() == 7 && mode_lines(modes)[6]
            == "      ... and "@ + text::decimal((modes.len() - 6) as nat) + " more"@,
        0 <= i < modes.len() && i < 6 ==> mode_lines(modes)[i] == "      "@ + modes[i].line(),
{
}

/// Each camera is listed in its turn, under its identifier and its name, with its
/// modes below where they are known.
pub proof fn law_each_camera_is_listed(
    before: Seq<CameraInfo>,
    camera: CameraInfo,
    after: Seq<CameraInfo>,
)
    ensures
        camera_entries(before + seq![camera] + after) == camera_entries(before) + camera_entry(
            camera,
        ) + camera_entries(after),
        camera_entry(camera)[0] == "  cam:"@ + camera.id@ + "  "@ + camera.name@,
        camera.modes is None ==> camera_entry(camera).len() == 1,
        camera.modes matches Some(modes) ==> camera_entry(camera).skip(1) == mode_lines(modes@),
    decreases after.len(),
{
    let all = before + seq![camera] + after;
    if after.len() == 0 {
        assert(all.drop_last() =~= before);
        assert(camera_entries(after) =~= seq![]);
        assert(camera_entries(all) =~= camera_entries(before) + camera_entry(camera)
            + camera_entries(after));
    } else {
        assert(all.drop_last() =~= before + seq![camera] + after.drop_last());
        law_each_camera_is_listed(before, camera, after.drop_last());
        assert(camera_entries(all) =~= camera_entries(before) + camera_entry(camera)
            + camera_entries(after));
    }
    if let Some(modes) = camera.modes {
        assert(camera_entry(camera).skip(1) =~= mode_lines(modes@));
    }
}

/// The cameras stand between a title and an empty line. Where there are none, or
/// they cannot be listed, it is told.
pub proof fn law_the_cameras_have_a_section(found: Result<Vec<CameraInfo>, String>)
    ensures
        ({
            let section = camera_section(found);
            let body = section.subrange(1, section.len() - 1);
            &&& section.len() >= 2
            &&& section[0] == "cameras:"@
            &&& section.last() == ""@
            &&& found matches Err(err) ==> body == seq!["  (unavailable: "@ + err@ + ")"@]
            &&& found matches Ok(list) ==> if list@.len() == 0 {
                body == seq!["  (none found)"@]
            } else {
                body == camera_entries(list@)
            }
        }),
{
    let section = camera_section(found);
    let body = section.subrange(1, section.len() - 1);
    match found {
        Ok(list) => if list@.len() == 0 {
            assert(body =~= seq!["  (none found)"@]);
        } else {
            assert(body =~= camera_entries(list@));
        },
        Err(err) => {
            assert(body =~= seq!["  (unavailable: "@ + err@ + ")"@]);
        },
    }
}

/// A line that starts with a number and a colon is a camera of the camera stack,
/// told by what follows. Any other line is none.
pub proof fn law_a_numbered_line_is_a_camera(line: Seq<char>, index: Seq<char>, description: Seq<char>)
    requires
        text::split_on(line, " : "@) == Some((index, description)),
    ensures
        line == index + " : "@ + description,
        text::u32_of(text::trimmed(index)) is Some ==> rpicam_entry(line) == Some(
            "rpicam  "@ + text::trimmed(description),
        ),
        text::u32_of(text::trimmed(index)) is None ==> rpicam_entry(line) is None,
{
    reveal_strlit(" : ");
    text::law_a_split_is_at_the_first_pattern(line, " : "@);
}

/// A line without a colon between blanks is no camera.
pub proof fn law_other_lines_are_no_camera(line: Seq<char>)
    requires
        forall|i: int|
            0 <= i <= line.len() - 3 ==> #[trigger] line.subrange(i, i + 3) != " : "@,
    ensures
        rpicam_entry(line) is None,
{
    reveal_strlit(" : ");
    text::law_a_split_is_at_the_first_pattern(line, " : "@);
    if let Some((left, right)) = text::split_on(line, " : "@) {
        let at = left.len() as int;
        assert(line.subrange(at, at + 3) =~= " : "@);
    }
}

/// The cameras of the camera stack are listed in the order of their lines.
pub proof fn law_lines_are_listed_in_order(before: Seq<Seq<char>>, line: Seq<char>, after: Seq<Seq<char>>)
    ensures
        rpicam_entries(before + seq![line] + after) == rpicam_entries(before) + (match rpicam_entry(
            line,
        ) {
            Some(entry) => seq![entry],
            None => Seq::<Seq<char>>::empty(),
        }) + rpicam_entries(after),
    decreases after.len(),
{
    let all = before + seq![line] + after;
    let one = match rpicam_entry(line) {
        Some(entry) => seq![entry],
        None => Seq::<Seq<char>>::empty(),
    };
    if after.len() == 0 {
        assert(all.drop_last() =~= before);
        assert(rpicam_entries(all) =~= rpicam_entries(before) + one + rpicam_entries(after));
    } else {
        assert(all.drop_last() =~= before + seq![line] + after.drop_last());
        law_lines_are_listed_in_order(before, line, after.drop_last());
        assert(rpicam_entries(all) =~= rpicam_entries(before) + one + rpicam_entries(after));
    }
}

/// Only what the tool printed is read. Each way to fail is told as what it is.
pub proof fn law_only_a_printed_list_is_read(listing: Listing)
    ensures
        rpicam_cameras(listing) is Ok <==> listing is Printed,
        listing matches Listing::Printed(out) ==> rpicam_cameras(listing) == Ok::<
            Seq<Seq<char>>,
            Seq<char>,
        >(rpicam_entries(text::lines_of(out@))),
        listing matches Listing::Failed(err) ==> rpicam_cameras(listing) == Err::<
            Seq<Seq<char>>,
            Seq<char>,
        >("rpicam-vid would not run: "@ + err@),
        listing is Missing ==> rpicam_cameras(listing) == Err::<Seq<Seq<char>>, Seq<char>>(
            "rpicam-vid is not on PATH"@,
        ),
        listing is TimedOut ==> rpicam_cameras(listing) == Err::<Seq<Seq<char>>, Seq<char>>(
            "rpicam-vid --list-cameras did not finish within 5s"@,
        ),
{
}

/// A section has its title, each of its devices in its turn, and an empty line.
pub proof fn law_a_section_lists_its_devices(
    title: Seq<char>,
    devices: Result<Seq<Seq<char>>, Seq<char>>,
    i: int,
)
    ensures
        ({
            let section = section_lines(title, devices);
            &&& section[0] == title + ":"@
            &&& section.last() == ""@
            &&& devices matches Ok(list) ==> section.len() == 2 + if list.len() == 0 {
                1
            } else {
                list.len()
            }
            &&& devices matches Ok(list) ==> (0 <= i < list.len() ==> section[i + 1] == "  "@
                + list[i])
            &&& devices matches Ok(list) ==> (list.len() == 0 ==> section[1] == "  (none found)"@)
            &&& devices matches Err(err) ==> section.len() == 3 && section[1] == "  (unavailable: "@
                + err + ")"@
        }),
{
}

/// Only the default device is marked.
pub proof fn law_only_the_default_is_marked(default: bool)
    ensures
        default_mark(default) == ""@ <==> !default,
        default ==> default_mark(default) == " (default)"@,
{
    reveal_strlit(" (default)");
    reveal_strlit("");
    assert(" (default)"@.len() != ""@.len());
}

} // verus!
