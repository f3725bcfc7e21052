//! The rules of a round, one step at a time.
//!
//! A step moves the paddles by the keys that are held, moves the ball by its
//! velocity, deflects it off a paddle, reflects it off the top and bottom of
//! the screen, records a winner once it has left the playfield, and serves a
//! new ball when the round is over and a restart is asked for. [`step`] says
//! what a step does to a [`Round`]; [`GameState::update`] does it.
//!
//! Three things are as they are on purpose:
//!
//! - Nothing keeps a paddle on the screen. A key that is held moves it on,
//!   step after step, as far as numbers go.
//! - Play does not freeze when a round is over. Paddles and ball keep moving,
//!   and a ball that leaves through the other side changes the winner; only
//!   a restart serves a new ball.
//! - The winner is a [`Player`], never a text. The announcement is made from
//!   it afresh whenever it is asked for, so it cannot grow from step to step.

use vstd::prelude::*;
use crate::entity::{Body, Entity, Size};
use crate::fixed::{Fixed, clamp, difference, half, in_range, product, ratio, sign, sum, whole};
use crate::geometry::{Point, Rectangle, Vec2, displaced, overlap};

verus! {

/// Width of the playfield, in pixels. A ball beyond it is lost by the right-hand player.
pub const WINDOW_WIDTH: i32 = 1920;

/// Height of the window that the game opens, in pixels.
pub const WINDOW_HEIGHT: i32 = 1080;

/// Distance that a paddle moves in one step while a key is held.
pub const PADDLE_SPEED: i32 = 8;

/// Speed at which the ball is served, towards the left.
pub const BALL_SPEED: i32 = 10;

/// Vertical speed that a hit at a full paddle height off centre would add.
pub const PADDLE_SPIN: i32 = 4;

/// Horizontal speed that the ball gains at each hit, in steps of `1 / 65536`: one half.
pub const BALL_ACC_STEPS: u16 = 32768;

/// Gap between each paddle and its side of the screen when a game starts.
pub const PADDLE_MARGIN: i32 = 16;

/// How far left of the middle of the screen the announcement starts.
pub const TEXT_OFFSET_X: i32 = 400;

/// How far above the middle of the screen the announcement starts.
pub const TEXT_OFFSET_Y: i32 = 100;

/// One of the two players. Player one has the left paddle.
#[derive(Clone, Copy, Debug, PartialEq, Eq, Structural)]
pub enum Player {
    One,
    Two,
}

/// Whether a round is being played or has been won.
#[derive(Clone, Copy, Debug, PartialEq, Eq, Structural)]
pub enum Phase {
    Playing,
    RoundOver,
}

/// The keys that are held during a step.
#[derive(Clone, Copy, Debug, PartialEq, Eq, Structural)]
pub struct Input {
    pub player1_up: bool,
    pub player1_down: bool,
    pub player2_up: bool,
    pub player2_down: bool,
    pub restart: bool,
}

/// The state of a game as raw values: the view of a [`GameState`].
pub struct Round {
    pub player1: Body,
    pub player2: Body,
    pub ball: Body,
    /// The player who won the round, once it is over.
    pub winner: Option<Player>,
}

impl Round {
    /// What holds of the view of every [`GameState`].
    pub open spec fn valid(self) -> bool {
        self.player1.valid() && self.player2.valid() && self.ball.valid()
    }
}

/// The height of a paddle at height `y` after a step in which its keys are
/// held as given. Both keys may be held: the paddle goes up, then down.
pub open spec fn steer(y: int, up: bool, down: bool) -> int {
    let raised: int = if up {
        difference(y, whole(PADDLE_SPEED as int))
    } else {
        y
    };
    if down {
        sum(raised, whole(PADDLE_SPEED as int))
    } else {
        raised
    }
}

/// The paddle after a step in which its keys are held as given.
pub open spec fn steered(paddle: Body, up: bool, down: bool) -> Body {
    Body {
        position: Point { x: paddle.position.x, y: steer(paddle.position.y, up, down) },
        ..paddle
    }
}

/// The ball moved by its velocity.
pub open spec fn advanced(ball: Body) -> Body {
    Body { position: displaced(ball.position, ball.velocity), ..ball }
}

/// The player whose paddle the ball is in contact with. Where it is in
/// contact with both, it is player one.
pub open spec fn struck(player1: Body, player2: Body, ball: Body) -> Option<Player> {
    if overlap(ball.bounds(), player1.bounds()) {
        Some(Player::One)
    } else if overlap(ball.bounds(), player2.bounds()) {
        Some(Player::Two)
    } else {
        None
    }
}

/// The horizontal velocity after a hit: faster by the gain, and reversed.
pub open spec fn rebound(vx: int) -> int {
    -sum(vx, product(BALL_ACC_STEPS as int, sign(vx)))
}

/// How far the centre of the paddle lies below that of the ball, as a
/// fraction of the paddle's height.
pub open spec fn hit_offset(paddle: Body, ball: Body) -> int {
    ratio(difference(paddle.centre().y, ball.centre().y), paddle.height)
}

/// The vertical velocity that a hit at the given offset adds.
pub open spec fn spin(offset: int) -> int {
    product(whole(PADDLE_SPIN as int), -offset)
}

/// The ball after a hit by the paddle.
pub open spec fn deflected(ball: Body, paddle: Body) -> Body {
    Body {
        velocity: Point {
            x: rebound(ball.velocity.x),
            y: sum(ball.velocity.y, spin(hit_offset(paddle, ball))),
        },
        ..ball
    }
}

/// The ball after its contact with the paddles has been dealt with.
pub open spec fn collided(player1: Body, player2: Body, ball: Body) -> Body {
    match struck(player1, player2, ball) {
        Some(Player::One) => deflected(ball, player1),
        Some(Player::Two) => deflected(ball, player2),
        None => ball,
    }
}

/// Whether the ball reaches the top of the screen or its bottom.
pub open spec fn at_wall(ball: Body, screen_height: int) -> bool {
    ball.position.y <= 0 || ball.position.y + ball.height >= screen_height
}

/// The ball after the top and bottom of the screen have reflected it.
pub open spec fn bounced(ball: Body, screen_height: int) -> Body {
    if at_wall(ball, screen_height) {
        Body { velocity: Point { x: ball.velocity.x, y: -ball.velocity.y }, ..ball }
    } else {
        ball
    }
}

/// The winner on record once the position of the ball has been looked at:
/// player one if it is beyond the right edge of the playfield, player two if
/// it is beyond the left edge, and otherwise whoever was on record before.
pub open spec fn judged(ball: Body, winner: Option<Player>) -> Option<Player> {
    if ball.position.x > whole(WINDOW_WIDTH as int) {
        Some(Player::One)
    } else if ball.position.x < 0 {
        Some(Player::Two)
    } else {
        winner
    }
}

/// The top-left corner that puts a rectangle of the given size in the middle
/// of the screen.
pub open spec fn centred(width: int, height: int, screen_width: int, screen_height: int) -> Point {
    Point {
        x: difference(half(screen_width), half(width)),
        y: difference(half(screen_height), half(height)),
    }
}

/// The ball as it is served: in the middle of the screen, moving left.
pub open spec fn served(ball: Body, screen_width: int, screen_height: int) -> Body {
    Body {
        position: centred(ball.width, ball.height, screen_width, screen_height),
        velocity: Point { x: -whole(BALL_SPEED as int), y: 0 },
        ..ball
    }
}

/// The round after the paddles have moved.
pub open spec fn paddles_moved(round: Round, input: Input) -> Round {
    Round {
        player1: steered(round.player1, input.player1_up, input.player1_down),
        player2: steered(round.player2, input.player2_up, input.player2_down),
        ..round
    }
}

/// The round after the ball has moved.
pub open spec fn ball_moved(round: Round) -> Round {
    Round { ball: advanced(round.ball), ..round }
}

/// The round after the paddles have had their effect on the ball.
pub open spec fn paddles_applied(round: Round) -> Round {
    Round { ball: collided(round.player1, round.player2, round.ball), ..round }
}

/// The round after the top and bottom of the screen have had their effect on the ball.
pub open spec fn walls_applied(round: Round, screen_height: int) -> Round {
    Round { ball: bounced(round.ball, screen_height), ..round }
}

/// The round after the position of the ball has been looked at for a winner.
pub open spec fn winner_recorded(round: Round) -> Round {
    Round { winner: judged(round.ball, round.winner), ..round }
}

/// The round after a new ball has been served.
pub open spec fn restarted(round: Round, screen_width: int, screen_height: int) -> Round {
    Round { ball: served(round.ball, screen_width, screen_height), winner: None, ..round }
}

/// The round before a restart is considered: paddles and ball have moved,
/// paddles and walls have had their effect, and the winner is on record.
pub open spec fn played(round: Round, input: Input, screen_height: int) -> Round {
    winner_recorded(
        walls_applied(paddles_applied(ball_moved(paddles_moved(round, input))), screen_height),
    )
}

/// The round after one step.
pub open spec fn step(round: Round, input: Input, screen_width: int, screen_height: int) -> Round {
    let after: Round = played(round, input, screen_height);
    if after.winner is Some && input.restart {
        restarted(after, screen_width, screen_height)
    } else {
        after
    }
}

/// The round that a game starts with: the paddles at mid-height, a margin
/// away from the left and right of the screen, the ball served, no winner.
pub open spec fn opening(
    player1: Size,
    player2: Size,
    ball: Size,
    screen_width: int,
    screen_height: int,
) -> Round {
    let margin: int = whole(PADDLE_MARGIN as int);
    let width1: int = whole(player1.spec_width() as int);
    let height1: int = whole(player1.spec_height() as int);
    let width2: int = whole(player2.spec_width() as int);
    let height2: int = whole(player2.spec_height() as int);
    let ball_width: int = whole(ball.spec_width() as int);
    let ball_height: int = whole(ball.spec_height() as int);
    Round {
        player1: Body {
            position: Point { x: margin, y: half(difference(screen_height, height1)) },
            velocity: Point { x: 0, y: 0 },
            width: width1,
            height: height1,
        },
        player2: Body {
            position: Point {
                x: difference(difference(screen_width, width2), margin),
                y: half(difference(screen_height, height2)),
            },
            velocity: Point { x: 0, y: 0 },
            width: width2,
            height: height2,
        },
        ball: Body {
            position: centred(ball_width, ball_height, screen_width, screen_height),
            velocity: Point { x: -whole(BALL_SPEED as int), y: 0 },
            width: ball_width,
            height: ball_height,
        },
        winner: None,
    }
}

/// The name of a player, as it is announced.
pub open spec fn player_name(player: Player) -> Seq<char> {
    match player {
        Player::One => "Player 1"@,
        Player::Two => "Player 2"@,
    }
}

/// The text that announces the winner of a round: the name of the player,
/// followed once by the news and by what to press next.
pub open spec fn announcement_text(winner: Player) -> Seq<char> {
    player_name(winner) + " wins!\nPress Enter to Restart or Esc to quit game"@
}

/// The text to show for a round: the announcement of its winner, once it has one.
pub open spec fn announced(round: Round) -> Option<Seq<char>> {
    match round.winner {
        Some(winner) => Some(announcement_text(winner)),
        None => None,
    }
}

/// Where the announcement starts on a screen of the given size.
pub open spec fn text_anchor(screen_width: int, screen_height: int) -> Point {
    Point {
        x: difference(half(screen_width), whole(TEXT_OFFSET_X as int)),
        y: difference(half(screen_height), whole(TEXT_OFFSET_Y as int)),
    }
}

/// Holding both keys of a paddle leaves it where it is, as long as it is
/// not within one move of the upper end of the range.
pub proof fn lemma_opposite_keys_cancel(y: int)
    requires
        in_range(y),
        in_range(y - whole(PADDLE_SPEED as int)),
    ensures
        steer(y, true, true) == y,
{
}

/// A step moves the ball by exactly its velocity, unless the step ends in a
/// restart or the sum leaves the range.
pub proof fn lemma_ball_advances(round: Round, input: Input, screen_width: int, screen_height: int)
    requires
        in_range(round.ball.position.x + round.ball.velocity.x),
        in_range(round.ball.position.y + round.ball.velocity.y),
        !(input.restart && played(round, input, screen_height).winner is Some),
    ensures
        step(round, input, screen_width, screen_height).ball.position == (Point {
            x: round.ball.position.x + round.ball.velocity.x,
            y: round.ball.position.y + round.ball.velocity.y,
        }),
{
}

/// A ball that, once moved, touches neither paddle nor wall keeps its
/// velocity through the step, unless the step ends in a restart.
pub proof fn lemma_free_flight(round: Round, input: Input, screen_width: int, screen_height: int)
    requires
        struck(
            paddles_moved(round, input).player1,
            paddles_moved(round, input).player2,
            advanced(round.ball),
        ) is None,
        !at_wall(advanced(round.ball), screen_height),
        !(input.restart && played(round, input, screen_height).winner is Some),
    ensures
        step(round, input, screen_width, screen_height).ball.velocity == round.ball.velocity,
{
}

/// The paddles deflect the ball at most once in a step: its horizontal
/// velocity is reversed once where it is in contact with a paddle, and is
/// left alone where it is not.
pub proof fn lemma_deflected_at_most_once(player1: Body, player2: Body, ball: Body)
    ensures
        struck(player1, player2, ball) is Some ==> collided(player1, player2, ball).velocity.x
            == rebound(ball.velocity.x),
        struck(player1, player2, ball) is None ==> collided(player1, player2, ball) == ball,
        overlap(ball.bounds(), player1.bounds()) ==> collided(player1, player2, ball) == deflected(
            ball,
            player1,
        ),
{
}

/// A hit reverses the horizontal velocity and adds the gain to its
/// magnitude; a ball with no horizontal velocity gets none. The gain may be
/// cut short at the end of the range.
pub proof fn lemma_rebound(vx: int)
    requires
        in_range(vx),
    ensures
        vx > 0 ==> rebound(vx) == -clamp(vx + BALL_ACC_STEPS),
        vx < 0 ==> rebound(vx) == -clamp(vx - BALL_ACC_STEPS),
        vx == 0 ==> rebound(vx) == 0,
{
}

/// A hit in which the centres of paddle and ball are level adds no spin:
/// the vertical velocity stays as it is.
pub proof fn lemma_level_hit_adds_no_spin(ball: Body, paddle: Body)
    requires
        ball.valid(),
        paddle.valid(),
        paddle.centre().y == ball.centre().y,
    ensures
        hit_offset(paddle, ball) == 0,
        spin(hit_offset(paddle, ball)) == 0,
        deflected(ball, paddle).velocity.y == ball.velocity.y,
{
}

/// The spin that a hit adds is the opposite of that of the mirrored hit.
pub proof fn lemma_spin_is_odd(offset: int)
    ensures
        spin(-offset) == -spin(offset),
{
    assert(whole(PADDLE_SPIN as int) == 262144);
    assert(262144 * -offset == -(262144 * offset));
}

/// A ball that reaches the top of the screen or its bottom has its vertical
/// velocity reversed, and nothing else changed.
pub proof fn lemma_wall_reverses(ball: Body, screen_height: int)
    requires
        at_wall(ball, screen_height),
    ensures
        bounced(ball, screen_height).velocity.y == -ball.velocity.y,
        bounced(ball, screen_height).velocity.x == ball.velocity.x,
        bounced(ball, screen_height).position == ball.position,
{
}

/// Two reflections in a row give the ball back as it was.
pub proof fn lemma_bounce_twice(ball: Body, screen_height: int)
    ensures
        bounced(bounced(ball, screen_height), screen_height) == ball,
{
}

/// A ball that is at the top or the bottom of the screen once it has moved
/// ends the step with the vertical velocity reversed that the paddles left
/// it with; where it touches no paddle, that is the one it began the step
/// with. A step that ends in a restart is excepted.
pub proof fn lemma_step_reflects_at_wall(
    round: Round,
    input: Input,
    screen_width: int,
    screen_height: int,
)
    requires
        at_wall(advanced(round.ball), screen_height),
        !(input.restart && played(round, input, screen_height).winner is Some),
    ensures
        step(round, input, screen_width, screen_height).ball.velocity.y == -paddles_applied(
            ball_moved(paddles_moved(round, input)),
        ).ball.velocity.y,
        struck(
            paddles_moved(round, input).player1,
            paddles_moved(round, input).player2,
            advanced(round.ball),
        ) is None ==> step(round, input, screen_width, screen_height).ball.velocity.y
            == -round.ball.velocity.y,
{
}

/// A step that finds a winner on record while a restart is asked for serves
/// a new ball and clears the winner. The paddles end the step where their
/// keys have moved them, as in any other step.
pub proof fn lemma_step_restarts(round: Round, input: Input, screen_width: int, screen_height: int)
    requires
        input.restart,
        played(round, input, screen_height).winner is Some,
    ensures
        step(round, input, screen_width, screen_height).winner is None,
        step(round, input, screen_width, screen_height).ball.position == centred(
            round.ball.width,
            round.ball.height,
            screen_width,
            screen_height,
        ),
        step(round, input, screen_width, screen_height).ball.velocity == (Point {
            x: -whole(BALL_SPEED as int),
            y: 0,
        }),
        step(round, input, screen_width, screen_height).player1 == steered(
            round.player1,
            input.player1_up,
            input.player1_down,
        ),
        step(round, input, screen_width, screen_height).player2 == steered(
            round.player2,
            input.player2_up,
            input.player2_down,
        ),
{
}

/// A round has a winner after a step exactly if the ball has left the
/// playfield, or if it had one before, and in either case the step does not
/// end in a restart.
pub proof fn lemma_round_over(round: Round, input: Input, screen_width: int, screen_height: int)
    ensures
        step(round, input, screen_width, screen_height).winner is Some <==> !input.restart && (
            round.winner is Some || played(round, input, screen_height).ball.position.x < 0
                || played(round, input, screen_height).ball.position.x > whole(WINDOW_WIDTH as int)),
{
}

/// While a round is over, a step without a restart that leaves the ball on
/// the playfield leaves the announcement as it is: the text is made from the
/// winner alone, and never from an earlier text.
pub proof fn lemma_announcement_stable(
    round: Round,
    input: Input,
    screen_width: int,
    screen_height: int,
)
    requires
        round.winner is Some,
        !input.restart,
        0 <= played(round, input, screen_height).ball.position.x <= whole(WINDOW_WIDTH as int),
    ensures
        announced(step(round, input, screen_width, screen_height)) == announced(round),
{
}

/// No step changes the size of a paddle or of the ball, and what is valid stays valid.
pub proof fn lemma_step_valid(round: Round, input: Input, screen_width: int, screen_height: int)
    requires
        round.valid(),
    ensures
        step(round, input, screen_width, screen_height).valid(),
        step(round, input, screen_width, screen_height).player1.width == round.player1.width,
        step(round, input, screen_width, screen_height).player1.height == round.player1.height,
        step(round, input, screen_width, screen_height).player2.width == round.player2.width,
        step(round, input, screen_width, screen_height).player2.height == round.player2.height,
        step(round, input, screen_width, screen_height).ball.width == round.ball.width,
        step(round, input, screen_width, screen_height).ball.height == round.ball.height,
{
}

/// The state of a game: two paddles, a ball, and the winner of the round once it is over.
#[derive(Clone, Copy, Debug, PartialEq, Eq, Structural)]
pub struct GameState {
    /// The left paddle.
    pub player1: Entity,
    /// The right paddle.
    pub player2: Entity,
    pub ball: Entity,
    /// The player who won the round; `None` while it is being played.
    pub winner: Option<Player>,
}

impl View for GameState {
    type V = Round;

    open spec fn view(&self) -> Round {
        Round {
            player1: self.player1@,
            player2: self.player2@,
            ball: self.ball@,
            winner: self.winner,
        }
    }
}

impl GameState {
    /// Two states with the same view are the same state: what a contract
    /// says of the view of a state, it says of the state.
    pub proof fn lemma_view_injective(a: GameState, b: GameState)
        ensures
            a@ == b@ <==> a == b,
    {
        Entity::lemma_view_injective(a.player1, b.player1);
        Entity::lemma_view_injective(a.player2, b.player2);
        Entity::lemma_view_injective(a.ball, b.ball);
    }
}

/// Moves a paddle by the keys that are held.
fn steer_paddle(paddle: &mut Entity, up: bool, down: bool)
    ensures
        final(paddle)@ == steered(old(paddle)@, up, down),
{
    if up {
        paddle.position.y = paddle.position.y.minus(Fixed::from_int(PADDLE_SPEED));
    }
    if down {
        paddle.position.y = paddle.position.y.plus(Fixed::from_int(PADDLE_SPEED));
    }
}

/// Gives the ball the velocity with which it leaves the paddle.
fn deflect(ball: &mut Entity, paddle: &Entity)
    ensures
        final(ball)@ == deflected(old(ball)@, paddle@),
{
    let gain: Fixed = Fixed::from_parts(0, BALL_ACC_STEPS).times(ball.velocity.x.signum());
    let offset: Fixed = paddle.centre().y.minus(ball.centre().y).over(paddle.height());
    let added: Fixed = Fixed::from_int(PADDLE_SPIN).times(offset.negated());
    ball.velocity = Vec2::new(ball.velocity.x.plus(gain).negated(), ball.velocity.y.plus(added));
}

impl Player {
    /// The name of the player, as it is announced.
    pub fn name(self) -> (r: String)
        ensures
            r@ == player_name(self),
    {
        match self {
            Player::One => String::from_str("Player 1"),
            Player::Two => String::from_str("Player 2"),
        }
    }
}

/// Where the announcement starts on a screen of the given size.
pub fn announcement_position(screen_width: Fixed, screen_height: Fixed) -> (r: Vec2)
    ensures
        r@ == text_anchor(screen_width@, screen_height@),
{
    Vec2::new(
        screen_width.halved().minus(Fixed::from_int(TEXT_OFFSET_X)),
        screen_height.halved().minus(Fixed::from_int(TEXT_OFFSET_Y)),
    )
}

impl GameState {
    /// The state in which a game starts, for images of the given sizes on a
    /// screen of the given size.
    pub fn new(
        player1: Size,
        player2: Size,
        ball: Size,
        screen_width: Fixed,
        screen_height: Fixed,
    ) -> (r: GameState)
        ensures
            r@ == opening(player1, player2, ball, screen_width@, screen_height@),
            r@.valid(),
    {
        let margin: Fixed = Fixed::from_int(PADDLE_MARGIN);
        let player1_position: Vec2 = Vec2::new(
            margin,
            screen_height.minus(Fixed::from_int(player1.height())).halved(),
        );
        let player2_position: Vec2 = Vec2::new(
            screen_width.minus(Fixed::from_int(player2.width())).minus(margin),
            screen_height.minus(Fixed::from_int(player2.height())).halved(),
        );
        let ball_position: Vec2 = Vec2::new(
            screen_width.halved().minus(Fixed::from_int(ball.width()).halved()),
            screen_height.halved().minus(Fixed::from_int(ball.height()).halved()),
        );
        let ball_velocity: Vec2 = Vec2::new(Fixed::from_int(BALL_SPEED).negated(), Fixed::zero());
        GameState {
            player1: Entity::new(player1, player1_position),
            player2: Entity::new(player2, player2_position),
            ball: Entity::with_velocity(ball, ball_position, ball_velocity),
            winner: None,
        }
    }

    /// Whether the round is being played or has been won.
    pub fn phase(&self) -> (r: Phase)
        ensures
            r == Phase::RoundOver <==> self.winner is Some,
    {
        if self.winner.is_some() {
            Phase::RoundOver
        } else {
            Phase::Playing
        }
    }

    /// The text that announces the winner, once the round is over. Asking
    /// for it changes nothing, however often it is done.
    pub fn announcement(&self) -> (r: Option<String>)
        ensures
            r is Some <==> self.winner is Some,
            r matches Some(text) ==> Some(text@) == announced(self@),
    {
        match self.winner {
            Some(winner) => {
                let mut text: String = winner.name();
                text.append(" wins!\nPress Enter to Restart or Esc to quit game");
                Some(text)
            },
            None => None,
        }
    }

    /// Moves each paddle by the keys that are held for it.
    pub fn move_paddles(&mut self, input: Input)
        ensures
            final(self)@ == paddles_moved(old(self)@, input),
    {
        steer_paddle(&mut self.player1, input.player1_up, input.player1_down);
        steer_paddle(&mut self.player2, input.player2_up, input.player2_down);
    }

    /// Moves the ball by its velocity.
    pub fn move_ball(&mut self)
        ensures
            final(self)@ == ball_moved(old(self)@),
    {
        self.ball.position = self.ball.position.plus(self.ball.velocity);
    }

    /// The player whose paddle the ball is in contact with, player one first.
    pub fn paddle_hit(&self) -> (r: Option<Player>)
        ensures
            r == struck(self.player1@, self.player2@, self.ball@),
    {
        let ball_bounds: Rectangle = self.ball.bounds();
        if ball_bounds.intersects(&self.player1.bounds()) {
            Some(Player::One)
        } else if ball_bounds.intersects(&self.player2.bounds()) {
            Some(Player::Two)
        } else {
            None
        }
    }

    /// Deflects the ball off the paddle that it is in contact with, if any.
    pub fn apply_paddles(&mut self)
        ensures
            final(self)@ == paddles_applied(old(self)@),
    {
        match self.paddle_hit() {
            Some(Player::One) => {
                deflect(&mut self.ball, &self.player1);
            },
            Some(Player::Two) => {
                deflect(&mut self.ball, &self.player2);
            },
            None => {},
        }
    }

    /// Reflects the ball off the top and the bottom of the screen.
    pub fn apply_walls(&mut self, screen_height: Fixed)
        ensures
            final(self)@ == walls_applied(old(self)@, screen_height@),
    {
        let bottom: i64 = self.ball.position.y.raw() + self.ball.height().raw();
        if self.ball.position.y.le(Fixed::zero()) || bottom >= screen_height.raw() {
            self.ball.velocity.y = self.ball.velocity.y.negated();
        }
    }

    /// Records the winner once the ball has left the playfield.
    pub fn record_winner(&mut self)
        ensures
            final(self)@ == winner_recorded(old(self)@),
    {
        if Fixed::from_int(WINDOW_WIDTH).lt(self.ball.position.x) {
            self.winner = Some(Player::One);
        } else if self.ball.position.x.lt(Fixed::zero()) {
            self.winner = Some(Player::Two);
        }
    }

    /// Serves a new ball and clears the winner. The paddles stay where they are.
    pub fn restart(&mut self, screen_width: Fixed, screen_height: Fixed)
        ensures
            final(self)@ == restarted(old(self)@, screen_width@, screen_height@),
    {
        self.winner = None;
        self.ball.position = Vec2::new(
            screen_width.halved().minus(self.ball.width().halved()),
            screen_height.halved().minus(self.ball.height().halved()),
        );
        self.ball.velocity = Vec2::new(Fixed::from_int(BALL_SPEED).negated(), Fixed::zero());
    }

    /// Advances the game by one step, and returns the announcement to show
    /// for it: that of the round as it stands once the winner is on record,
    /// before a restart is considered.
    pub fn update(
        &mut self,
        input: Input,
        screen_width: Fixed,
        screen_height: Fixed,
    ) -> (r: Option<String>)
        ensures
            final(self)@ == step(old(self)@, input, screen_width@, screen_height@),
            final(self)@.valid(),
            r is Some <==> played(old(self)@, input, screen_height@).winner is Some,
            r matches Some(text) ==> Some(text@) == announced(
                played(old(self)@, input, screen_height@),
            ),
    {
        self.move_paddles(input);
        self.move_ball();
        self.apply_paddles();
        self.apply_walls(screen_height);
        self.record_winner();
        let text: Option<String> = self.announcement();
        if self.winner.is_some() && input.restart {
            self.restart(screen_width, screen_height);
        }
        proof {
            use_type_invariant(&self.player1.size);
            use_type_invariant(&self.player1.position.x);
            use_type_invariant(&self.player1.position.y);
            use_type_invariant(&self.player1.velocity.x);
            use_type_invariant(&self.player1.velocity.y);
            use_type_invariant(&self.player2.size);
            use_type_invariant(&self.player2.position.x);
            use_type_invariant(&self.player2.position.y);
            use_type_invariant(&self.player2.velocity.x);
            use_type_invariant(&self.player2.velocity.y);
            use_type_invariant(&self.ball.size);
            use_type_invariant(&self.ball.position.x);
            use_type_invariant(&self.ball.position.y);
            use_type_invariant(&self.ball.velocity.x);
            use_type_invariant(&self.ball.velocity.y);
        }
        text
    }
}

} // verus!
