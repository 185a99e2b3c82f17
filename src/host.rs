//! The host: append-only registries of fonts, shaders and consoles, forwarding
//! to the active console, and the rebuild and draw steps of a frame.
use vstd::prelude::*;
use crate::console::{Console, Font, Shader, RGB};
use crate::timing::FrameTimer;

verus! {

/// A console surface bound to a font and a shader by their registry indices.
pub struct DisplayConsole<C> {
    pub console: C,
    pub shader_index: usize,
    pub font_index: usize,
}

/// An index that did not resolve to a registered entry.
#[derive(Clone, Copy, Debug, PartialEq, Eq, Structural)]
pub enum HostError {
    /// The active console is not a registered console.
    ConsoleOutOfRange { id: usize, count: usize },
    /// A console is bound to a font that is not registered.
    FontOutOfRange { console: usize, font_index: usize, count: usize },
    /// A console is bound to a shader that is not registered.
    ShaderOutOfRange { console: usize, shader_index: usize, count: usize },
}

/// The resources one console is drawn with, resolved from its indices.
#[derive(Clone, Copy, Debug, PartialEq, Eq, Structural)]
pub struct DrawCall {
    pub console: usize,
    pub font_index: usize,
    pub shader_index: usize,
}

/// One registration, as a value: a font, or a console with its font index.
pub enum Registration<C> {
    Font(Font),
    Console(C, usize),
}

/// The host's state. Registries only grow; an index handed out stays valid.
pub struct Rltk<C> {
    pub width_pixels: u32,
    pub height_pixels: u32,
    pub fonts: Vec<Font>,
    pub shaders: Vec<Shader>,
    pub consoles: Vec<DisplayConsole<C>>,
    pub timer: FrameTimer,
    pub active_console: usize,
}

/// What drawing console `i` resolves to, given the registry sizes.
pub open spec fn resolve_spec<C>(
    dc: DisplayConsole<C>,
    i: usize,
    n_fonts: nat,
    n_shaders: nat,
) -> Result<DrawCall, HostError> {
    if dc.font_index >= n_fonts {
        Err(HostError::FontOutOfRange { console: i, font_index: dc.font_index, count: n_fonts as usize })
    } else if dc.shader_index >= n_shaders {
        Err(
            HostError::ShaderOutOfRange {
                console: i,
                shader_index: dc.shader_index,
                count: n_shaders as usize,
            },
        )
    } else {
        Ok(DrawCall { console: i, font_index: dc.font_index, shader_index: dc.shader_index })
    }
}

impl<C> DisplayConsole<C> {
    /// The same binding, with another surface in it.
    pub open spec fn with_console(self, c: C) -> DisplayConsole<C> {
        DisplayConsole { console: c, shader_index: self.shader_index, font_index: self.font_index }
    }
}

impl<C: Console> Rltk<C> {
    /// Everything but the console surfaces.
    pub open spec fn same_but_surfaces(self, other: Self) -> bool {
        &&& self.width_pixels == other.width_pixels
        &&& self.height_pixels == other.height_pixels
        &&& self.fonts@ == other.fonts@
        &&& self.shaders@ == other.shaders@
        &&& self.timer == other.timer
        &&& self.active_console == other.active_console
        &&& self.consoles@.len() == other.consoles@.len()
        &&& forall|i: int|
            0 <= i < self.consoles@.len() ==> {
                &&& #[trigger] self.consoles@[i].font_index == other.consoles@[i].font_index
                &&& self.consoles@[i].shader_index == other.consoles@[i].shader_index
            }
    }

    /// Only the surface of console `a` may differ.
    pub open spec fn same_but_surface(self, other: Self, a: int) -> bool {
        &&& self.same_but_surfaces(other)
        &&& forall|i: int|
            0 <= i < self.consoles@.len() && i != a ==> #[trigger] other.consoles@[i]
                == self.consoles@[i]
    }

    /// The error that a forwarded call gives, if the active console is not registered.
    pub open spec fn active_error(self) -> Option<HostError> {
        if self.active_console < self.consoles@.len() {
            None
        } else {
            Some(
                HostError::ConsoleOutOfRange {
                    id: self.active_console,
                    count: self.consoles@.len() as usize,
                },
            )
        }
    }

    /// `after` is this host with console `id` selected, and nothing else changed.
    pub open spec fn activated(self, after: Self, id: usize) -> bool {
        &&& after.active_console == id
        &&& after.width_pixels == self.width_pixels
        &&& after.height_pixels == self.height_pixels
        &&& after.fonts@ == self.fonts@
        &&& after.shaders@ == self.shaders@
        &&& after.consoles@ == self.consoles@
        &&& after.timer == self.timer
    }

    /// `after` and `r` are what forwarding an operation, described by `op` as a
    /// relation between a surface before and after it, to the active console gives.
    pub open spec fn forwarded(self, after: Self, r: Result<(), HostError>, op: spec_fn(C, C) -> bool) -> bool {
        let a = self.active_console as int;
        &&& self.same_but_surface(after, a)
        &&& match self.active_error() {
            Some(e) => r == Err::<(), HostError>(e) && after.consoles@ == self.consoles@,
            None => r is Ok && op(self.consoles@[a].console, after.consoles@[a].console),
        }
    }

    /// `after` is this host once every dirty console has been rebuilt, and
    /// `rebuilt` says, console by console, which ones were.
    pub open spec fn rebuild_step(self, after: Self, rebuilt: Seq<bool>) -> bool {
        &&& self.same_but_surfaces(after)
        &&& rebuilt.len() == self.consoles@.len()
        &&& forall|i: int|
            0 <= i < rebuilt.len() ==> {
                &&& #[trigger] rebuilt[i] == self.consoles@[i].console.dirty()
                &&& rebuilt[i] ==> C::rebuilt(self.consoles@[i].console, after.consoles@[i].console)
                &&& !rebuilt[i] ==> after.consoles@[i] == self.consoles@[i]
                &&& !after.consoles@[i].console.dirty()
            }
    }

    /// `after` is this host once each console of `plan` has been drawn with the
    /// font and shader its call names, and those whose binding failed left alone.
    pub open spec fn draw_step(self, after: Self, plan: Seq<Result<DrawCall, HostError>>) -> bool {
        &&& plan == self.draw_plan_spec()
        &&& self.same_but_surfaces(after)
        &&& forall|i: int|
            0 <= i < plan.len() ==> match #[trigger] plan[i] {
                Ok(call) => C::drawn(
                    self.consoles@[i].console,
                    after.consoles@[i].console,
                    self.fonts@[call.font_index as int],
                    self.shaders@[call.shader_index as int],
                ),
                Err(_) => after.consoles@[i] == self.consoles@[i],
            }
    }

    /// What a registration leaves untouched.
    pub open spec fn same_settings(self, other: Self) -> bool {
        &&& self.width_pixels == other.width_pixels
        &&& self.height_pixels == other.height_pixels
        &&& self.shaders@ == other.shaders@
        &&& self.timer == other.timer
        &&& self.active_console == other.active_console
    }

    /// `after` is this host with `op` registered, and `r` is the index handed back.
    pub open spec fn registered(self, after: Self, op: Registration<C>, r: usize) -> bool {
        &&& self.same_settings(after)
        &&& match op {
            Registration::Font(f) => {
                &&& after.fonts@ == self.fonts@.push(f)
                &&& after.consoles@ == self.consoles@
                &&& r == self.fonts@.len()
            },
            Registration::Console(c, fi) => {
                &&& after.fonts@ == self.fonts@
                &&& after.consoles@ == self.consoles@.push(
                    DisplayConsole { console: c, shader_index: 0, font_index: fi },
                )
                &&& r == self.consoles@.len()
            },
        }
    }

    /// The draw calls of a frame, one per console in registration order.
    pub open spec fn draw_plan_spec(self) -> Seq<Result<DrawCall, HostError>> {
        Seq::new(
            self.consoles@.len(),
            |i: int|
                resolve_spec(
                    self.consoles@[i],
                    i as usize,
                    self.fonts@.len(),
                    self.shaders@.len(),
                ),
        )
    }

    /// A host with the given pixel size and its one shader, and nothing registered.
    pub fn new(width_pixels: u32, height_pixels: u32, shader: Shader) -> (r: Self)
        ensures
            r.width_pixels == width_pixels,
            r.height_pixels == height_pixels,
            r.fonts@.len() == 0,
            r.shaders@ == seq![shader],
            r.consoles@.len() == 0,
            r.timer == FrameTimer::start(),
            r.active_console == 0,
    {
        Rltk {
            width_pixels,
            height_pixels,
            fonts: Vec::new(),
            shaders: vec![shader],
            consoles: Vec::new(),
            timer: FrameTimer::new(),
            active_console: 0,
        }
    }

    /// Appends a font and returns its index.
    pub fn register_font(&mut self, font: Font) -> (r: usize)
        requires
            old(self).fonts@.len() < usize::MAX,
        ensures
            old(self).registered(*final(self), Registration::Font(font), r),
    {
        self.fonts.push(font);
        self.fonts.len() - 1
    }

    /// Appends a console bound to `font_index` and to the first shader, and
    /// returns its index. The font index is checked when the console is drawn.
    pub fn register_console(&mut self, new_console: C, font_index: usize) -> (r: usize)
        requires
            old(self).consoles@.len() < usize::MAX,
        ensures
            old(self).registered(*final(self), Registration::Console(new_console, font_index), r),
    {
        self.consoles.push(DisplayConsole { console: new_console, font_index, shader_index: 0 });
        self.consoles.len() - 1
    }

    /// Selects the console that forwarded calls go to. It is checked when used.
    pub fn set_active_console(&mut self, id: usize)
        ensures
            old(self).activated(*final(self), id),
    {
        self.active_console = id;
    }

    /// Reads the glyph code at a cell of the active console.
    pub fn at(&self, x: i32, y: i32) -> (r: Result<Option<usize>, HostError>)
        ensures
            match self.active_error() {
                Some(e) => r == Err::<Option<usize>, HostError>(e),
                None => r == Ok::<Option<usize>, HostError>(
                    self.consoles@[self.active_console as int].console.glyph_at(x, y),
                ),
            },
    {
        if self.active_console >= self.consoles.len() {
            return Err(
                HostError::ConsoleOutOfRange { id: self.active_console, count: self.consoles.len() },
            );
        }
        Ok(self.consoles[self.active_console].console.at(x, y))
    }

    /// Clears the active console.
    pub fn cls(&mut self) -> (r: Result<(), HostError>)
        ensures
            old(self).forwarded(*final(self), r, |b: C, a: C| C::cleared(b, a)),
    {
        let a = self.active_console;
        if a >= self.consoles.len() {
            return Err(HostError::ConsoleOutOfRange { id: a, count: self.consoles.len() });
        }
        self.consoles[a].console.cls();
        Ok(())
    }

    /// Clears the active console to a background colour.
    pub fn cls_bg(&mut self, background: RGB) -> (r: Result<(), HostError>)
        ensures
            old(self).forwarded(*final(self), r, |b: C, a: C| C::cleared_bg(b, a, background)),
    {
        let a = self.active_console;
        if a >= self.consoles.len() {
            return Err(HostError::ConsoleOutOfRange { id: a, count: self.consoles.len() });
        }
        self.consoles[a].console.cls_bg(background);
        Ok(())
    }

    /// Prints text on the active console.
    pub fn print(&mut self, x: i32, y: i32, output: &str) -> (r: Result<(), HostError>)
        ensures
            old(self).forwarded(*final(self), r, |b: C, a: C| C::printed(b, a, x, y, output@)),
    {
        let a = self.active_console;
        if a >= self.consoles.len() {
            return Err(HostError::ConsoleOutOfRange { id: a, count: self.consoles.len() });
        }
        self.consoles[a].console.print(x, y, output);
        Ok(())
    }

    /// Prints text in the given colours on the active console.
    pub fn print_color(&mut self, x: i32, y: i32, fg: RGB, bg: RGB, output: &str) -> (r: Result<
        (),
        HostError,
    >)
        ensures
            old(self).forwarded(*final(self), r, |b: C, a: C| C::printed_color(b, a, x, y, fg, bg, output@)),
    {
        let a = self.active_console;
        if a >= self.consoles.len() {
            return Err(HostError::ConsoleOutOfRange { id: a, count: self.consoles.len() });
        }
        self.consoles[a].console.print_color(x, y, fg, bg, output);
        Ok(())
    }

    /// Rebuilds the geometry of every console that reports itself dirty, in
    /// registration order, and returns which ones were rebuilt.
    pub fn rebuild_dirty_consoles(&mut self) -> (rebuilt: Vec<bool>)
        ensures
            old(self).rebuild_step(*final(self), rebuilt@),
    {
        let mut rebuilt: Vec<bool> = Vec::new();
        let n = self.consoles.len();
        let ghost start = *self;
        let mut i: usize = 0;
        while i < n
            invariant
                n == start.consoles@.len(),
                0 <= i <= n,
                start.same_but_surfaces(*self),
                rebuilt@.len() == i,
                forall|j: int|
                    i <= j < n ==> #[trigger] self.consoles@[j] == start.consoles@[j],
                forall|j: int|
                    0 <= j < i ==> {
                        &&& #[trigger] rebuilt@[j] == start.consoles@[j].console.dirty()
                        &&& rebuilt@[j] ==> C::rebuilt(
                            start.consoles@[j].console,
                            self.consoles@[j].console,
                        )
                        &&& !rebuilt@[j] ==> self.consoles@[j] == start.consoles@[j]
                        &&& !self.consoles@[j].console.dirty()
                    },
            decreases n - i,
        {
            let dirty = self.consoles[i].console.is_dirty();
            if dirty {
                self.consoles[i].console.rebuild_geometry();
            }
            rebuilt.push(dirty);
            i += 1;
        }
        rebuilt
    }

    /// The fonts and shaders that each console is to be drawn with, in registration order.
    pub fn draw_plan(&self) -> (plan: Vec<Result<DrawCall, HostError>>)
        ensures
            plan@ == self.draw_plan_spec(),
    {
        let mut plan: Vec<Result<DrawCall, HostError>> = Vec::new();
        let n = self.consoles.len();
        let mut i: usize = 0;
        while i < n
            invariant
                n == self.consoles@.len(),
                0 <= i <= n,
                plan@ == self.draw_plan_spec().take(i as int),
            decreases n - i,
        {
            let dc = &self.consoles[i];
            let call = if dc.font_index >= self.fonts.len() {
                Err(
                    HostError::FontOutOfRange {
                        console: i,
                        font_index: dc.font_index,
                        count: self.fonts.len(),
                    },
                )
            } else if dc.shader_index >= self.shaders.len() {
                Err(
                    HostError::ShaderOutOfRange {
                        console: i,
                        shader_index: dc.shader_index,
                        count: self.shaders.len(),
                    },
                )
            } else {
                Ok(DrawCall { console: i, font_index: dc.font_index, shader_index: dc.shader_index })
            };
            plan.push(call);
            i += 1;
            assert(plan@ =~= self.draw_plan_spec().take(i as int));
        }
        assert(plan@ =~= self.draw_plan_spec());
        plan
    }

    /// Draws every console whose font and shader resolve, in registration order,
    /// and reports for each console what it was drawn with or why it was not.
    /// A console whose binding does not resolve is skipped; the others are drawn.
    pub fn draw_consoles(&mut self) -> (plan: Vec<Result<DrawCall, HostError>>)
        ensures
            old(self).draw_step(*final(self), plan@),
    {
        let plan = self.draw_plan();
        let ghost start = *self;
        let n = plan.len();
        let mut i: usize = 0;
        while i < n
            invariant
                n == plan@.len(),
                plan@ == start.draw_plan_spec(),
                0 <= i <= n,
                start.same_but_surfaces(*self),
                forall|j: int|
                    i <= j < n ==> #[trigger] self.consoles@[j] == start.consoles@[j],
                forall|j: int|
                    0 <= j < i ==> match #[trigger] plan@[j] {
                        Ok(call) => C::drawn(
                            start.consoles@[j].console,
                            self.consoles@[j].console,
                            start.fonts@[call.font_index as int],
                            start.shaders@[call.shader_index as int],
                        ),
                        Err(_) => self.consoles@[j] == start.consoles@[j],
                    },
            decreases n - i,
        {
            match &plan[i] {
                Ok(call) => {
                    let font = &self.fonts[call.font_index];
                    let shader = &self.shaders[call.shader_index];
                    self.consoles[i].console.draw(font, shader);
                },
                Err(_) => {},
            }
            i += 1;
        }
        plan
    }
}

/// How many of the registrations are of fonts.
pub open spec fn count_fonts<C>(ops: Seq<Registration<C>>) -> nat
    decreases ops.len(),
{
    if ops.len() == 0 {
        0
    } else {
        count_fonts(ops.drop_last()) + if ops.last() is Font {
            1nat
        } else {
            0nat
        }
    }
}

/// How many of the registrations are of consoles.
pub open spec fn count_consoles<C>(ops: Seq<Registration<C>>) -> nat
    decreases ops.len(),
{
    if ops.len() == 0 {
        0
    } else {
        count_consoles(ops.drop_last()) + if ops.last() is Console {
            1nat
        } else {
            0nat
        }
    }
}

/// The number of earlier registrations of the same kind as registration `i`.
pub open spec fn index_before<C>(ops: Seq<Registration<C>>, i: int) -> nat {
    if ops[i] is Font {
        count_fonts(ops.take(i))
    } else {
        count_consoles(ops.take(i))
    }
}

/// `hosts` is a run of registrations `ops` that handed back `rs`.
pub open spec fn is_registration_run<C: Console>(
    hosts: Seq<Rltk<C>>,
    ops: Seq<Registration<C>>,
    rs: Seq<usize>,
) -> bool {
    &&& hosts.len() == ops.len() + 1
    &&& rs.len() == ops.len()
    &&& forall|i: int|
        0 <= i < ops.len() ==> hosts[i].registered(hosts[i + 1], #[trigger] ops[i], rs[i])
}

proof fn lemma_run_sizes<C: Console>(
    hosts: Seq<Rltk<C>>,
    ops: Seq<Registration<C>>,
    rs: Seq<usize>,
    k: int,
)
    requires
        is_registration_run(hosts, ops, rs),
        hosts[0].fonts@.len() == 0,
        hosts[0].consoles@.len() == 0,
        0 <= k <= ops.len(),
    ensures
        hosts[k].fonts@.len() == count_fonts(ops.take(k)),
        hosts[k].consoles@.len() == count_consoles(ops.take(k)),
    decreases k,
{
    if k > 0 {
        lemma_run_sizes(hosts, ops, rs, k - 1);
        assert(ops.take(k).drop_last() =~= ops.take(k - 1));
        assert(hosts[k - 1].registered(hosts[k], ops[k - 1], rs[k - 1]));
    } else {
        assert(ops.take(0).len() == 0);
    }
}

proof fn lemma_run_grows<C: Console>(
    hosts: Seq<Rltk<C>>,
    ops: Seq<Registration<C>>,
    rs: Seq<usize>,
    a: int,
    b: int,
)
    requires
        is_registration_run(hosts, ops, rs),
        0 <= a <= b <= ops.len(),
    ensures
        hosts[a].fonts@.len() <= hosts[b].fonts@.len(),
        hosts[a].consoles@.len() <= hosts[b].consoles@.len(),
    decreases b - a,
{
    if a < b {
        lemma_run_grows(hosts, ops, rs, a, b - 1);
        assert(hosts[b - 1].registered(hosts[b], ops[b - 1], rs[b - 1]));
    }
}

/// Over any run of font and console registrations on a host with none yet, the
/// index handed back for each is the number of earlier registrations of its kind:
/// font indices and console indices each count up from 0, strictly increasing,
/// and none is handed out twice.
pub proof fn lemma_registration_indices<C: Console>(
    hosts: Seq<Rltk<C>>,
    ops: Seq<Registration<C>>,
    rs: Seq<usize>,
)
    requires
        is_registration_run(hosts, ops, rs),
        hosts[0].fonts@.len() == 0,
        hosts[0].consoles@.len() == 0,
    ensures
        forall|i: int| 0 <= i < ops.len() ==> rs[i] == index_before(ops, i),
        forall|i: int, j: int|
            0 <= i < j < ops.len() && (ops[i] is Font) == (ops[j] is Font) ==> rs[i] < rs[j],
{
    assert forall|i: int| 0 <= i < ops.len() implies rs[i] == index_before(ops, i) by {
        lemma_run_sizes(hosts, ops, rs, i);
        assert(hosts[i].registered(hosts[i + 1], ops[i], rs[i]));
    }
    assert forall|i: int, j: int|
        0 <= i < j < ops.len() && (ops[i] is Font) == (ops[j] is Font) implies rs[i] < rs[j] by {
        lemma_run_grows(hosts, ops, rs, i + 1, j);
        assert(hosts[i].registered(hosts[i + 1], ops[i], rs[i]));
        assert(hosts[j].registered(hosts[j + 1], ops[j], rs[j]));
    }
}

/// The console that a draw call, or a failed binding, belongs to.
pub open spec fn plan_console(c: Result<DrawCall, HostError>) -> int {
    match c {
        Ok(call) => call.console as int,
        Err(HostError::FontOutOfRange { console, .. }) => console as int,
        Err(HostError::ShaderOutOfRange { console, .. }) => console as int,
        Err(HostError::ConsoleOutOfRange { .. }) => -1,
    }
}

/// Consoles are drawn in registration order: the plan has one entry per console,
/// entry `i` is console `i`, and the plan is fixed by the bindings and the sizes
/// of the font and shader registries alone.
pub proof fn lemma_draw_order<C: Console>(h: Rltk<C>, g: Rltk<C>)
    ensures
        h.draw_plan_spec().len() == h.consoles@.len(),
        forall|i: int| 0 <= i < h.consoles@.len() ==> plan_console(#[trigger] h.draw_plan_spec()[i]) == i,
        forall|i: int, j: int|
            0 <= i < j < h.consoles@.len() ==> plan_console(#[trigger] h.draw_plan_spec()[i])
                < plan_console(#[trigger] h.draw_plan_spec()[j]),
        ({
            &&& g.consoles@.len() == h.consoles@.len()
            &&& g.fonts@.len() == h.fonts@.len()
            &&& g.shaders@.len() == h.shaders@.len()
            &&& forall|i: int|
                0 <= i < h.consoles@.len() ==> {
                    &&& #[trigger] g.consoles@[i].font_index == h.consoles@[i].font_index
                    &&& g.consoles@[i].shader_index == h.consoles@[i].shader_index
                }
        }) ==> g.draw_plan_spec() == h.draw_plan_spec(),
{
    let plan = h.draw_plan_spec();
    assert(h.consoles@.len() == h.consoles.len());
    assert forall|i: int| 0 <= i < h.consoles@.len() implies plan_console(#[trigger] plan[i]) == i by {
        assert(plan[i] == resolve_spec(h.consoles@[i], i as usize, h.fonts@.len(), h.shaders@.len()));
    }
    assert forall|i: int, j: int| 0 <= i < j < h.consoles@.len() implies plan_console(
        #[trigger] plan[i],
    ) < plan_console(#[trigger] plan[j]) by {
        assert(plan_console(plan[i]) == i);
        assert(plan_console(plan[j]) == j);
    }
    if g.consoles@.len() == h.consoles@.len() && g.fonts@.len() == h.fonts@.len()
        && g.shaders@.len() == h.shaders@.len() && forall|i: int|
        0 <= i < h.consoles@.len() ==> {
            &&& #[trigger] g.consoles@[i].font_index == h.consoles@[i].font_index
            &&& g.consoles@[i].shader_index == h.consoles@[i].shader_index
        } {
        assert(g.draw_plan_spec() =~= h.draw_plan_spec());
    }
}

/// In one frame, a console is rebuilt exactly when it reported itself dirty at the
/// rebuild step, and the draw step that follows draws the surface that the rebuild
/// left: rebuilt if it was dirty, untouched otherwise, and no longer dirty. The
/// rebuild changes no binding, so the frame draws what the host planned before it.
pub proof fn lemma_rebuild_before_draw<C: Console>(
    h0: Rltk<C>,
    h1: Rltk<C>,
    h2: Rltk<C>,
    rebuilt: Seq<bool>,
    plan: Seq<Result<DrawCall, HostError>>,
)
    requires
        h0.rebuild_step(h1, rebuilt),
        h1.draw_step(h2, plan),
    ensures
        plan == h0.draw_plan_spec(),
        forall|i: int|
            0 <= i < h0.consoles@.len() ==> {
                &&& #[trigger] rebuilt[i] == h0.consoles@[i].console.dirty()
                &&& rebuilt[i] ==> C::rebuilt(h0.consoles@[i].console, h1.consoles@[i].console)
                &&& !rebuilt[i] ==> h1.consoles@[i].console == h0.consoles@[i].console
                &&& !h1.consoles@[i].console.dirty()
                &&& match plan[i] {
                    Ok(call) => C::drawn(
                        h1.consoles@[i].console,
                        h2.consoles@[i].console,
                        h0.fonts@[call.font_index as int],
                        h0.shaders@[call.shader_index as int],
                    ),
                    Err(_) => h2.consoles@[i] == h1.consoles@[i],
                }
            },
{
    lemma_draw_order(h1, h0);
}

/// After `set_active_console(id)`, a forwarded operation reaches console `id` with
/// its arguments as given and changes no other console; if `id` is not a registered
/// console, it fails with `ConsoleOutOfRange` and changes nothing.
pub proof fn lemma_forward_to_selected<C: Console>(
    h0: Rltk<C>,
    h1: Rltk<C>,
    h2: Rltk<C>,
    id: usize,
    r: Result<(), HostError>,
    op: spec_fn(C, C) -> bool,
)
    requires
        h0.activated(h1, id),
        h1.forwarded(h2, r, op),
    ensures
        id < h0.consoles@.len() ==> {
            &&& r is Ok
            &&& op(h0.consoles@[id as int].console, h2.consoles@[id as int].console)
            &&& forall|j: int|
                0 <= j < h0.consoles@.len() && j != id ==> #[trigger] h2.consoles@[j]
                    == h0.consoles@[j]
        },
        id >= h0.consoles@.len() ==> {
            &&& r == Err::<(), HostError>(
                HostError::ConsoleOutOfRange { id, count: h0.consoles@.len() as usize },
            )
            &&& h2.consoles@ == h0.consoles@
        },
{
}

} // verus!
