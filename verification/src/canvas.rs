//! The canvas: a stack of pixel layers of one size, the cursor that moves
//! over them, and the edits that keystrokes make.

use vstd::prelude::*;
use vstd::seq_lib::to_multiset_build;
use crate::application::Mode;
use crate::commands::{Command, CommandSpec};
use crate::cursor::Cursor;
use crate::geometry::{div_toward_zero, toward_zero, Pixel, Position, Size, Sprite};
use crate::input::{Action, Input, InputHandler};

verus! {

/// How many display units one cell of the canvas takes on screen.
pub const PIXEL_SIZE: i32 = 16;

/// The index of the cell `at` in a row-by-row buffer of a grid of `size`,
/// the first row being the top one.
pub open spec fn cell_index(size: Size, at: Position) -> int {
    at.y * size.width + at.x
}

/// A buffer of `size` in which every cell holds `pixel`.
pub open spec fn uniform(size: Size, pixel: Pixel) -> Seq<Pixel> {
    Seq::new(size.area() as nat, |i: int| pixel)
}

/// The buffer `cells` of a grid of `size` after `pixel` was written at `at`.
/// A write outside the grid is dropped.
pub open spec fn painted(cells: Seq<Pixel>, size: Size, at: Position, pixel: Pixel) -> Seq<
    Pixel,
> {
    if size.holds(at) {
        cells.update(cell_index(size, at), pixel)
    } else {
        cells
    }
}

/// A cell of the grid has its place in the buffer.
pub proof fn lemma_cell_index_bounded(size: Size, at: Position)
    requires
        size.holds(at),
    ensures
        0 <= at.y * size.width <= cell_index(size, at) < size.area(),
{
    let x = at.x as int;
    let y = at.y as int;
    let w = size.width as int;
    let h = size.height as int;
    assert(0 <= y * w <= y * w + x < w * h) by (nonlinear_arith)
        requires
            0 <= x < w,
            0 <= y < h,
    ;
}

/// One rectangular grid of pixels, held row by row from the top.
#[derive(Debug)]
pub struct Layer {
    size: Size,
    pixels: Vec<Pixel>,
}

impl Layer {
    /// The size of the grid.
    pub closed spec fn extent(&self) -> Size {
        self.size
    }

    /// The pixels, row by row.
    pub closed spec fn cells(&self) -> Seq<Pixel> {
        self.pixels@
    }

    /// The buffer holds one pixel for each cell of the grid.
    pub open spec fn wf(&self) -> bool {
        &&& self.extent().is_extent()
        &&& self.cells().len() == self.extent().area()
    }

    /// A layer of `size` in which every cell holds `pixel`.
    pub fn filled(size: Size, pixel: Pixel) -> (layer: Layer)
        requires
            size.is_extent(),
            size.area() <= usize::MAX,
        ensures
            layer.wf(),
            layer.extent() == size,
            layer.cells() == uniform(size, pixel),
    {
        let count: usize = (size.width as usize) * (size.height as usize);
        let mut pixels: Vec<Pixel> = Vec::new();
        let mut i: usize = 0;
        while i < count
            invariant
                i <= count,
                count == size.area(),
                pixels@ == Seq::new(i as nat, |k: int| pixel),
            decreases count - i,
        {
            pixels.push(pixel);
            proof {
                assert(pixels@ =~= Seq::new((i + 1) as nat, |k: int| pixel));
            }
            i += 1;
        }
        Layer { size, pixels }
    }

    pub fn size(&self) -> (size: Size)
        ensures
            size == self.extent(),
    {
        self.size
    }

    pub fn pixels(&self) -> (pixels: &Vec<Pixel>)
        ensures
            pixels@ == self.cells(),
    {
        &self.pixels
    }

    /// The place of the cell `at` in the buffer, if `at` lies on the grid.
    fn index_of(&self, at: Position) -> (index: Option<usize>)
        requires
            self.wf(),
        ensures
            match index {
                Some(i) => self.extent().holds(at) && i == cell_index(self.extent(), at) && i
                    < self.cells().len(),
                None => !self.extent().holds(at),
            },
    {
        if 0 <= at.x && at.x < self.size.width && 0 <= at.y && at.y < self.size.height {
            let row: usize = at.y as usize;
            let width: usize = self.size.width as usize;
            let count: usize = self.pixels.len();
            proof {
                lemma_cell_index_bounded(self.size, at);
                assert(count == self.size.area());
                assert(row * width == at.y * self.size.width);
            }
            Some(row * width + (at.x as usize))
        } else {
            None
        }
    }

    /// The pixel at `at`, if `at` lies on the grid.
    pub fn get(&self, at: Position) -> (pixel: Option<Pixel>)
        requires
            self.wf(),
        ensures
            pixel == (if self.extent().holds(at) {
                Some(self.cells()[cell_index(self.extent(), at)])
            } else {
                None
            }),
    {
        match self.index_of(at) {
            Some(index) => Some(self.pixels[index]),
            None => None,
        }
    }

    /// Writes `pixel` at `at`, replacing what was there. A write outside the
    /// grid is dropped.
    pub fn put(&mut self, at: Position, pixel: Pixel)
        requires
            old(self).wf(),
        ensures
            final(self).wf(),
            final(self).extent() == old(self).extent(),
            final(self).cells() == painted(old(self).cells(), old(self).extent(), at, pixel),
    {
        match self.index_of(at) {
            Some(index) => {
                self.pixels.set(index, pixel);
            },
            None => {},
        }
    }
}

/// The displacement that an action asks of the cursor: one cell for the four
/// moves, none for anything else.
pub open spec fn step(action: Option<Action>) -> Position {
    match action {
        Some(Action::Left) => Position { x: -1i32, y: 0 },
        Some(Action::Right) => Position { x: 1, y: 0 },
        Some(Action::Up) => Position { x: 0, y: -1i32 },
        Some(Action::Down) => Position { x: 0, y: 1 },
        _ => Position { x: 0, y: 0 },
    }
}

/// The displacement that an action asks of the cursor.
pub fn step_of(action: Option<Action>) -> (by: Position)
    ensures
        by == step(action),
{
    match action {
        Some(Action::Left) => Position::new(-1, 0),
        Some(Action::Right) => Position::new(1, 0),
        Some(Action::Up) => Position::new(0, -1),
        Some(Action::Down) => Position::new(0, 1),
        _ => Position::new(0, 0),
    }
}

/// The sum of the steps of `moves`: how far they carry the cursor.
pub open spec fn displacement(moves: Seq<Action>) -> (int, int)
    decreases moves.len(),
{
    if moves.len() == 0 {
        (0, 0)
    } else {
        let before = displacement(moves.drop_last());
        let last = step(Some(moves.last()));
        (before.0 + last.x, before.1 + last.y)
    }
}

/// How often `action` occurs among `moves`.
pub open spec fn occurrences(moves: Seq<Action>, action: Action) -> int {
    moves.to_multiset().count(action) as int
}

/// The displacement counts the moves to the right against those to the
/// left, and the moves down against those up.
pub proof fn lemma_displacement_counts(moves: Seq<Action>)
    ensures
        displacement(moves).0 == occurrences(moves, Action::Right) - occurrences(
            moves,
            Action::Left,
        ),
        displacement(moves).1 == occurrences(moves, Action::Down) - occurrences(
            moves,
            Action::Up,
        ),
    decreases moves.len(),
{
    if moves.len() == 0 {
        moves.to_multiset_ensures();
        assert(forall|a: Action| !moves.contains(a));
    } else {
        let front = moves.drop_last();
        lemma_displacement_counts(front);
        to_multiset_build(front, moves.last());
        assert(front.push(moves.last()) =~= moves);
    }
}

/// The same moves in another order carry the cursor equally far.
pub proof fn law_displacement_ignores_order(first: Seq<Action>, second: Seq<Action>)
    requires
        first.to_multiset() == second.to_multiset(),
    ensures
        displacement(first) == displacement(second),
{
    lemma_displacement_counts(first);
    lemma_displacement_counts(second);
}

/// After a run of keystrokes outside command mode, each taken by the canvas
/// and resolved to the action listed for it, the cursor stands at its
/// starting point plus the sum of the steps of those actions.
pub proof fn law_cursor_follows_moves(states: Seq<Canvas>, moves: Seq<Action>, modes: Seq<Mode>)
    requires
        states.len() == moves.len() + 1,
        modes.len() == moves.len(),
        forall|i: int|
            0 <= i < moves.len() ==> {
                &&& modes[i] != Mode::Command
                &&& (#[trigger] states[i]).can_take(Some(moves[i]), modes[i])
                &&& states[i + 1].took(states[i], Some(moves[i]), modes[i])
            },
    ensures
        states.last().cursor().position.x == states[0].cursor().position.x + displacement(
            moves,
        ).0,
        states.last().cursor().position.y == states[0].cursor().position.y + displacement(
            moves,
        ).1,
    decreases moves.len(),
{
    if moves.len() > 0 {
        let n = moves.len() as int;
        law_cursor_follows_moves(states.drop_last(), moves.drop_last(), modes.drop_last());
        assert(states.drop_last().last() == states[n - 1]);
        assert(states[n - 1].can_take(Some(moves[n - 1]), modes[n - 1]));
        assert(states[n].took(states[n - 1], Some(moves[n - 1]), modes[n - 1]));
    }
}

/// A keystroke that no binding resolves changes nothing, whatever the mode:
/// the cursor, the layers, the overlay and the placement stay as they were.
pub proof fn law_unbound_key_is_ignored(before: Canvas, after: Canvas, mode: Mode)
    requires
        before.wf(),
        after.took(before, None, mode),
    ensures
        after.cursor() == before.cursor(),
        after.layer_cells() == before.layer_cells(),
        after.overlay_cells() == before.overlay_cells(),
        after.active() == before.active(),
        after.size() == before.size(),
        after.sprite() == before.sprite(),
        after.cursor_sprite() == before.cursor_sprite(),
{
}

/// One layer painted over another: every cell takes the pixel of the upper
/// layer, at full opacity.
pub open spec fn painted_over(below: Seq<Pixel>, above: Seq<Pixel>) -> Seq<Pixel> {
    Seq::new(below.len(), |i: int| above[i])
}

/// The layers flattened into one buffer: the first layer, with each later
/// layer painted over what lies below it.
pub open spec fn composite(layers: Seq<Seq<Pixel>>) -> Seq<Pixel>
    decreases layers.len(),
{
    if layers.len() == 0 {
        Seq::empty()
    } else if layers.len() == 1 {
        layers[0]
    } else {
        painted_over(composite(layers.drop_last()), layers.last())
    }
}

/// Layers of one size flatten to what the top layer holds: a layer painted
/// at full opacity hides all that lies below it.
pub proof fn law_composite_shows_top_layer(layers: Seq<Seq<Pixel>>)
    requires
        layers.len() >= 1,
        forall|i: int| 0 <= i < layers.len() ==> (#[trigger] layers[i]).len() == layers[0].len(),
    ensures
        composite(layers) == layers.last(),
    decreases layers.len(),
{
    if layers.len() > 1 {
        let below = layers.drop_last();
        assert(forall|i: int| 0 <= i < below.len() ==> below[i] == layers[i]);
        law_composite_shows_top_layer(below);
        assert(painted_over(composite(below), layers.last()) =~= layers.last());
    }
}

/// A picture to be written to a file: the flattened layers and the path.
#[derive(Debug, Clone, PartialEq, Eq)]
pub struct Export {
    pub path: String,
    pub size: Size,
    pub pixels: Vec<Pixel>,
}

/// One buffer to be drawn, and where.
#[derive(Debug, Clone, PartialEq, Eq)]
pub struct Draw {
    pub sprite: Sprite,
    pub size: Size,
    pub pixels: Vec<Pixel>,
}

/// Why a command was not carried out.
#[derive(Debug, Clone, Copy, PartialEq, Eq, Structural)]
pub enum ExecError {
    /// A write was asked for without a path.
    EmptyPath,
}

/// The layers, the layer that is drawn on, and the cursor with the overlay
/// that shows it. All layers and the overlay have the size of the canvas.
#[derive(Debug)]
pub struct Canvas {
    layers: Vec<Layer>,
    layer: usize,
    cursor_layer: Layer,
    sprite: Sprite,
    cursor_sprite: Sprite,
    cursor: Cursor,
}

impl Canvas {
    /// The colour a new canvas is filled with.
    pub open spec fn background() -> Pixel {
        Pixel { r: 12, g: 34, b: 56, a: 255 }
    }

    /// The colour that drawing leaves.
    pub open spec fn ink() -> Pixel {
        Pixel::spec_white()
    }

    /// The size of every layer.
    pub closed spec fn size(&self) -> Size {
        self.sprite.size
    }

    /// The pixels of the layers, bottom layer first.
    pub closed spec fn layer_cells(&self) -> Seq<Seq<Pixel>> {
        Seq::new(self.layers@.len(), |i: int| self.layers@[i].cells())
    }

    /// The index of the layer that is drawn on.
    pub closed spec fn active(&self) -> int {
        self.layer as int
    }

    /// The cursor.
    pub closed spec fn cursor(&self) -> Cursor {
        self.cursor
    }

    /// The pixels of the overlay that shows the cursor.
    pub closed spec fn overlay_cells(&self) -> Seq<Pixel> {
        self.cursor_layer.cells()
    }

    /// Where the layers are to be placed on screen.
    pub closed spec fn sprite(&self) -> Sprite {
        self.sprite
    }

    /// Where the overlay is to be placed on screen.
    pub closed spec fn cursor_sprite(&self) -> Sprite {
        self.cursor_sprite
    }

    /// Every stored layer, and the overlay, is sound and has the size of
    /// the canvas.
    pub closed spec fn storage_wf(&self) -> bool {
        &&& forall|i: int|
            0 <= i < self.layers@.len() ==> (#[trigger] self.layers@[i]).wf()
                && self.layers@[i].extent() == self.sprite.size
        &&& self.cursor_layer.wf()
        &&& self.cursor_layer.extent() == self.sprite.size
    }

    /// There is at least one layer, the active layer is one of them, every
    /// layer holds one pixel for each cell, and the overlay is transparent
    /// but for the cursor's cell, which holds the cursor's colour.
    pub open spec fn wf(&self) -> bool {
        &&& self.storage_wf()
        &&& self.size().is_extent()
        &&& self.layer_cells().len() >= 1
        &&& 0 <= self.active() < self.layer_cells().len()
        &&& forall|i: int|
            0 <= i < self.layer_cells().len() ==> (#[trigger] self.layer_cells()[i]).len()
                == self.size().area()
        &&& self.overlay_cells() == painted(
            uniform(self.size(), Pixel::spec_transparent()),
            self.size(),
            self.cursor().position,
            self.cursor().color,
        )
    }

    /// Size, placement, number of layers, active layer and cursor colour are
    /// those of `before`.
    pub open spec fn same_frame(&self, before: Canvas) -> bool {
        &&& self.size() == before.size()
        &&& self.sprite() == before.sprite()
        &&& self.cursor_sprite() == before.cursor_sprite()
        &&& self.active() == before.active()
        &&& self.layer_cells().len() == before.layer_cells().len()
        &&& self.cursor().color == before.cursor().color
    }

    /// Whether `self` is what `before` becomes when a character that
    /// resolves to `action` comes in under `mode`.
    ///
    /// In command mode nothing changes, and a character that no binding
    /// resolves changes nothing in any mode. Otherwise the cursor moves by
    /// the step of `action`, and in insert mode the active layer then takes
    /// ink at the cell where the cursor has arrived.
    pub open spec fn took(&self, before: Canvas, action: Option<Action>, mode: Mode) -> bool {
        &&& self.wf()
        &&& self.same_frame(before)
        &&& self.cursor().position == (if mode == Mode::Command {
            before.cursor().position
        } else {
            before.cursor().position.spec_moved(step(action))
        })
        &&& self.layer_cells() == (if mode == Mode::Insert && action.is_some() {
            before.layer_cells().update(
                before.active(),
                painted(
                    before.layer_cells()[before.active()],
                    before.size(),
                    self.cursor().position,
                    Canvas::ink(),
                ),
            )
        } else {
            before.layer_cells()
        })
    }

    /// Whether `self` is a new canvas of `size` for a window of
    /// `window_size`: one layer, filled with the background colour; the
    /// cursor at its start; the layers placed so that the middle of the
    /// canvas lies on the middle of the window, counted in cells, and the
    /// overlay placed with them, in front.
    pub open spec fn fresh(&self, window_size: Size, size: Size) -> bool {
        &&& self.wf()
        &&& self.size() == size
        &&& self.layer_cells() == seq![uniform(size, Canvas::background())]
        &&& self.active() == 0
        &&& self.cursor().position == Cursor::start()
        &&& self.cursor().color == Cursor::highlight()
        &&& self.sprite().size == size
        &&& self.sprite().z_index == 10
        &&& self.sprite().position.x == toward_zero(
            toward_zero(window_size.width as int, 2),
            PIXEL_SIZE as int,
        ) - toward_zero(size.width as int, 2)
        &&& self.sprite().position.y == toward_zero(
            toward_zero(window_size.height as int, 2),
            PIXEL_SIZE as int,
        ) - toward_zero(size.height as int, 2)
        &&& self.cursor_sprite() == (Sprite { z_index: 9, ..self.sprite() })
    }

    /// Whether a character that resolves to `action` can come in under
    /// `mode`: the cursor must not leave the range of its coordinates.
    pub open spec fn can_take(&self, action: Option<Action>, mode: Mode) -> bool {
        mode != Mode::Command ==> self.cursor().position.can_move(step(action))
    }

    /// A canvas of one layer of `size`, filled with the background colour,
    /// centred in a window of `window_size`, the cursor at its start.
    pub fn new(window_size: Size, size: Size) -> (canvas: Canvas)
        requires
            size.is_extent(),
            size.area() <= usize::MAX,
        ensures
            canvas.fresh(window_size, size),
    {
        let texture = Layer::filled(size, Pixel { r: 12, g: 34, b: 56, a: 255 });
        let cursor_layer = Layer::filled(size, Pixel::transparent());
        let position = Position {
            x: div_toward_zero(div_toward_zero(window_size.width, 2), PIXEL_SIZE)
                - div_toward_zero(size.width, 2),
            y: div_toward_zero(div_toward_zero(window_size.height, 2), PIXEL_SIZE)
                - div_toward_zero(size.height, 2),
        };
        let sprite = Sprite { position, size, z_index: 10 };
        let cursor_sprite = Sprite { position, size, z_index: 9 };
        let mut layers: Vec<Layer> = Vec::new();
        layers.push(texture);
        let mut canvas = Canvas {
            layers,
            layer: 0,
            cursor_layer,
            sprite,
            cursor_sprite,
            cursor: Cursor::new(),
        };
        // Show the cursor where it starts.
        canvas.cursor_layer.put(canvas.cursor.position, canvas.cursor.color);
        proof {
            assert(canvas.layer_cells() =~= seq![uniform(size, Canvas::background())]);
        }
        canvas
    }

    /// Moves the cursor by `move_by`, whether or not that keeps it on the
    /// grid, and moves its mark on the overlay with it.
    pub fn move_cursor(&mut self, move_by: Position)
        requires
            old(self).wf(),
            old(self).cursor().position.can_move(move_by),
        ensures
            final(self).wf(),
            final(self).same_frame(*old(self)),
            final(self).cursor().position == old(self).cursor().position.spec_moved(move_by),
            final(self).layer_cells() == old(self).layer_cells(),
    {
        // Take the mark away from where the cursor stood.
        self.cursor_layer.put(self.cursor.position, Pixel::transparent());
        proof {
            lemma_cell_index_bounded_if(self.sprite.size, old(self).cursor.position);
            assert(self.cursor_layer.cells() =~= uniform(
                self.sprite.size,
                Pixel::spec_transparent(),
            ));
        }
        self.cursor.position = self.cursor.position.moved(move_by);
        // Mark where it stands now.
        self.cursor_layer.put(self.cursor.position, self.cursor.color);
    }

    /// Writes ink into the active layer at the cursor's cell. Nothing is
    /// written if the cursor stands outside the grid.
    pub fn draw(&mut self)
        requires
            old(self).wf(),
        ensures
            final(self).wf(),
            final(self).same_frame(*old(self)),
            final(self).cursor() == old(self).cursor(),
            final(self).layer_cells() == old(self).layer_cells().update(
                old(self).active(),
                painted(
                    old(self).layer_cells()[old(self).active()],
                    old(self).size(),
                    old(self).cursor().position,
                    Canvas::ink(),
                ),
            ),
    {
        let draw_at = self.cursor.position;
        let k = self.layer;
        self.layers[k].put(draw_at, Pixel::white());
        proof {
            lemma_cell_index_bounded_if(self.sprite.size, draw_at);
            assert(self.layer_cells() =~= old(self).layer_cells().update(
                old(self).active(),
                painted(
                    old(self).layer_cells()[old(self).active()],
                    old(self).size(),
                    old(self).cursor().position,
                    Canvas::ink(),
                ),
            ));
        }
    }

    /// Takes one character under `mode`. In command mode the canvas takes
    /// no part. Otherwise the character is resolved through the bindings of
    /// `mode`. A character that is not bound is dropped. Of the actions, the
    /// four moves move the cursor by one cell and every other leaves it; in
    /// insert mode ink is then written at the cell where the cursor stands
    /// after that.
    pub fn input(&mut self, c: char, mode: Mode, input: &InputHandler)
        requires
            old(self).wf(),
            old(self).can_take(input.spec_to_action(c, mode), mode),
        ensures
            final(self).took(*old(self), input.spec_to_action(c, mode), mode),
    {
        match mode {
            Mode::Command => return,
            Mode::Normal | Mode::Visual | Mode::Insert => {
                let action = input.to_action(c, mode);
                match action {
                    Some(Action::Left) => self.move_cursor(Position::new(-1, 0)),
                    Some(Action::Right) => self.move_cursor(Position::new(1, 0)),
                    Some(Action::Up) => self.move_cursor(Position::new(0, -1)),
                    Some(Action::Down) => self.move_cursor(Position::new(0, 1)),
                    _ => {},
                }
                if let (Mode::Insert, Some(_)) = (mode, action) {
                    self.draw();
                }
            },
        }
    }

    /// Whether `input` may be called with these arguments.
    pub fn accepts(&self, c: char, mode: Mode, input: &InputHandler) -> (ok: bool)
        ensures
            ok == self.can_take(input.spec_to_action(c, mode), mode),
    {
        match mode {
            Mode::Command => true,
            Mode::Normal | Mode::Visual | Mode::Insert => {
                self.cursor.position.fits(step_of(input.to_action(c, mode)))
            },
        }
    }

    /// The layers flattened into one buffer, bottom layer first, each later
    /// layer painted over what lies below.
    pub fn flatten(&self) -> (flat: Vec<Pixel>)
        requires
            self.wf(),
        ensures
            flat@ == composite(self.layer_cells()),
    {
        let ghost cells = self.layer_cells();
        let count: usize = self.layers[0].pixels().len();
        let mut flat = copy_pixels(self.layers[0].pixels());
        proof {
            assert(flat@ =~= cells[0]);
            assert(cells.take(1) =~= seq![cells[0]]);
        }
        let mut k: usize = 1;
        while k < self.layers.len()
            invariant
                self.wf(),
                cells == self.layer_cells(),
                1 <= k <= self.layers@.len(),
                count == self.size().area(),
                flat@.len() == count,
                flat@ == composite(cells.take(k as int)),
            decreases self.layers@.len() - k,
        {
            let ghost below = flat@;
            let above = self.layers[k].pixels();
            proof {
                assert(above@ == cells[k as int]);
                assert(cells[k as int].len() == count);
            }
            let mut j: usize = 0;
            while j < count
                invariant
                    j <= count,
                    above@.len() == count,
                    flat@.len() == count,
                    below.len() == count,
                    forall|n: int| 0 <= n < j ==> flat@[n] == above@[n],
                decreases count - j,
            {
                flat.set(j, above[j]);
                j += 1;
            }
            proof {
                assert(cells.take(k + 1).drop_last() =~= cells.take(k as int));
                assert(cells.take(k + 1).last() == cells[k as int]);
                assert(flat@ =~= painted_over(below, above@));
            }
            k += 1;
        }
        proof {
            assert(cells.take(self.layers@.len() as int) =~= cells);
        }
        flat
    }

    /// What is to be drawn, in the order of drawing: each layer, bottom
    /// layer first, at the place of the layers, then the overlay with the
    /// cursor at its own place.
    pub fn render(&mut self) -> (draws: Vec<Draw>)
        ensures
            *final(self) == *old(self),
            draws@.len() == old(self).layer_cells().len() + 1,
            forall|i: int|
                0 <= i < old(self).layer_cells().len() ==> {
                    &&& (#[trigger] draws@[i]).sprite == old(self).sprite()
                    &&& draws@[i].size == old(self).size()
                    &&& draws@[i].pixels@ == old(self).layer_cells()[i]
                },
            draws@.last().sprite == old(self).cursor_sprite(),
            draws@.last().size == old(self).size(),
            draws@.last().pixels@ == old(self).overlay_cells(),
    {
        let mut draws: Vec<Draw> = Vec::new();
        let mut i: usize = 0;
        while i < self.layers.len()
            invariant
                i <= self.layers@.len(),
                draws@.len() == i,
                forall|k: int|
                    0 <= k < i ==> {
                        &&& (#[trigger] draws@[k]).sprite == self.sprite
                        &&& draws@[k].size == self.sprite.size
                        &&& draws@[k].pixels@ == self.layers@[k].cells()
                    },
            decreases self.layers@.len() - i,
        {
            let pixels = copy_pixels(self.layers[i].pixels());
            draws.push(Draw { sprite: self.sprite, size: self.sprite.size, pixels });
            i += 1;
        }
        let pixels = copy_pixels(self.cursor_layer.pixels());
        draws.push(Draw { sprite: self.cursor_sprite, size: self.sprite.size, pixels });
        draws
    }

    /// Carries out a command. Only a write has an effect here: it yields the
    /// flattened layers together with the path they are to be written to, or
    /// an error if the path is empty. The canvas itself never changes.
    pub fn exec(&mut self, command: Command) -> (result: Result<Option<Export>, ExecError>)
        requires
            old(self).wf(),
        ensures
            *final(self) == *old(self),
            match command@ {
                CommandSpec::Write(path) => if path.len() == 0 {
                    result == Err::<Option<Export>, ExecError>(ExecError::EmptyPath)
                } else {
                    match result {
                        Ok(Some(export)) => {
                            &&& export.path@ == path
                            &&& export.size == old(self).size()
                            &&& export.pixels@ == composite(old(self).layer_cells())
                        },
                        _ => false,
                    }
                },
                _ => result == Ok::<Option<Export>, ExecError>(None),
            },
    {
        match command {
            Command::Write(path) => {
                if path.as_str().unicode_len() == 0 {
                    Err(ExecError::EmptyPath)
                } else {
                    Ok(Some(Export { path, size: self.sprite.size, pixels: self.flatten() }))
                }
            },
            _ => Ok(None),
        }
    }

    /// The size of every layer.
    pub fn extent(&self) -> (size: Size)
        ensures
            size == self.size(),
    {
        self.sprite.size
    }

    /// The number of layers.
    pub fn layer_count(&self) -> (count: usize)
        ensures
            count == self.layer_cells().len(),
    {
        self.layers.len()
    }

    /// The pixels of layer `index`.
    pub fn layer_pixels(&self, index: usize) -> (pixels: &Vec<Pixel>)
        requires
            index < self.layer_cells().len(),
        ensures
            pixels@ == self.layer_cells()[index as int],
    {
        self.layers[index].pixels()
    }

    /// The index of the layer that is drawn on.
    pub fn active_layer(&self) -> (index: usize)
        ensures
            index == self.active(),
    {
        self.layer
    }

    /// The pixels of the overlay that shows the cursor.
    pub fn overlay_pixels(&self) -> (pixels: &Vec<Pixel>)
        ensures
            pixels@ == self.overlay_cells(),
    {
        self.cursor_layer.pixels()
    }

    /// Where the cursor stands.
    pub fn cursor_position(&self) -> (at: Position)
        ensures
            at == self.cursor().position,
    {
        self.cursor.position
    }

    /// Where the layers are to be placed on screen.
    pub fn placement(&self) -> (sprite: Sprite)
        ensures
            sprite == self.sprite(),
    {
        self.sprite
    }

    /// Where the overlay is to be placed on screen.
    pub fn cursor_placement(&self) -> (sprite: Sprite)
        ensures
            sprite == self.cursor_sprite(),
    {
        self.cursor_sprite
    }

    /// The pixel of layer `index` at `at`, if `at` lies on the grid.
    pub fn pixel_at(&self, index: usize, at: Position) -> (pixel: Option<Pixel>)
        requires
            self.wf(),
            index < self.layer_cells().len(),
        ensures
            pixel == (if self.size().holds(at) {
                Some(self.layer_cells()[index as int][cell_index(self.size(), at)])
            } else {
                None
            }),
    {
        self.layers[index].get(at)
    }
}

impl Input for Canvas {
    open spec fn ready(&self, c: char, mode: Mode, input: &InputHandler) -> bool {
        self.wf() && self.can_take(input.spec_to_action(c, mode), mode)
    }

    open spec fn handled(&self, before: Canvas, c: char, mode: Mode, input: &InputHandler) -> bool {
        self.took(before, input.spec_to_action(c, mode), mode)
    }

    fn input(&mut self, c: char, mode: Mode, input: &InputHandler) {
        Canvas::input(self, c, mode, input)
    }
}

/// A copy of a buffer.
fn copy_pixels(pixels: &Vec<Pixel>) -> (copy: Vec<Pixel>)
    ensures
        copy@ == pixels@,
{
    let mut copy: Vec<Pixel> = Vec::new();
    let mut i: usize = 0;
    while i < pixels.len()
        invariant
            i <= pixels.len(),
            copy@ == pixels@.take(i as int),
        decreases pixels.len() - i,
    {
        copy.push(pixels[i]);
        i += 1;
    }
    copy
}

/// The index of a cell on the grid lies within the buffer.
proof fn lemma_cell_index_bounded_if(size: Size, at: Position)
    ensures
        size.holds(at) ==> 0 <= cell_index(size, at) < size.area(),
{
    if size.holds(at) {
        lemma_cell_index_bounded(size, at);
    }
}

} // verus!
