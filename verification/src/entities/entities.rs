//! The collection of entities: the player and everything else, driven
//! together frame by frame.

use vstd::prelude::*;
use crate::entities::enemy::{enemy_picture, enemy_step, lemma_enemy_step_keeps_valid, Enemy};
use crate::entities::entity::{Collidable, Contact, Controllable, Entity};
use crate::entities::model::{health_after, total_damage, Body};
use crate::entities::player::{
    lemma_player_step_keeps_valid, player_picture, player_step, pressed, released, Player,
};
use crate::levels::level::{LevelState, LevelStateModel};
use crate::tools::helpers::DrawCommand;
use crate::tools::input::InputEvent;

verus! {

/// What an [`Entities`] stands for.
pub struct EntitiesModel {
    pub player: Body,
    pub entities: Seq<Body>,
}

/// The contacts that the player makes with the first `n` of `others`, in
/// their order: one for each whose hitbox overlaps the player's.
pub open spec fn contacts_upto(player: Body, others: Seq<Body>, n: int) -> Seq<Contact>
    decreases n,
{
    if n <= 0 {
        Seq::empty()
    } else if player.hitbox().overlaps(others[n - 1].hitbox()) {
        contacts_upto(player, others, n - 1).push(others[n - 1].contact())
    } else {
        contacts_upto(player, others, n - 1)
    }
}

/// The pictures of the first `n` of `others`, one after the other.
pub open spec fn pictures_upto(others: Seq<Body>, level: LevelStateModel, n: int) -> Seq<
    DrawCommand,
>
    decreases n,
{
    if n <= 0 {
        Seq::empty()
    } else {
        pictures_upto(others, level, n - 1) + enemy_picture(others[n - 1], level)
    }
}

/// The entities after one frame of `dt` microseconds. The player moves
/// first. Then each other entity, in order, is tested against the player
/// where the player now stands, leaves a contact on the player if their
/// hitboxes overlap, and moves toward where the player now stands. Only the
/// player keeps a record of the contact.
pub open spec fn frame_step(model: EntitiesModel, dt: int) -> EntitiesModel {
    let player = player_step(model.player, dt);
    EntitiesModel {
        player: Body {
            colliding_entities: contacts_upto(player, model.entities, model.entities.len() as int),
            ..player
        },
        entities: Seq::new(
            model.entities.len(),
            |i: int| enemy_step(model.entities[i], dt, player.pos),
        ),
    }
}

/// The player after an input event.
pub open spec fn player_input(body: Body, e: InputEvent) -> Body {
    match e {
        InputEvent::Press(key) => pressed(body, key),
        InputEvent::Release(key) => released(body, key),
        InputEvent::Other => body,
    }
}

impl EntitiesModel {
    /// Whether the player and every other entity are valid.
    pub open spec fn valid(self) -> bool {
        &&& self.player.valid()
        &&& forall|i: int| 0 <= i < self.entities.len() ==> (#[trigger] self.entities[i]).valid()
    }
}

/// A frame keeps every entity the entity it was, and a valid one; none
/// comes or goes.
pub proof fn lemma_frame_keeps_valid(model: EntitiesModel, dt: int)
    requires
        model.valid(),
    ensures
        frame_step(model, dt).valid(),
        frame_step(model, dt).player.same_make(model.player),
        frame_step(model, dt).entities.len() == model.entities.len(),
        forall|i: int|
            0 <= i < model.entities.len() ==> (#[trigger] frame_step(model, dt).entities[i])
                .same_make(model.entities[i]),
{
    lemma_player_step_keeps_valid(model.player, dt);
    let player = player_step(model.player, dt);
    assert forall|i: int| 0 <= i < model.entities.len() implies (#[trigger] frame_step(
        model,
        dt,
    ).entities[i]).valid() && frame_step(model, dt).entities[i].same_make(
        model.entities[i],
    ) by {
        lemma_enemy_step_keeps_valid(model.entities[i], dt, player.pos);
    }
}

/// A frame never heals the player, and never touches the health of anyone
/// else.
pub proof fn lemma_frame_never_heals(model: EntitiesModel, dt: int)
    requires
        model.valid(),
    ensures
        frame_step(model, dt).player.hp <= model.player.hp,
        forall|i: int|
            0 <= i < model.entities.len() ==> (#[trigger] frame_step(model, dt).entities[i]).hp
                == model.entities[i].hp,
{
    lemma_player_step_keeps_valid(model.player, dt);
}

/// The contacts of a frame are counted afresh: with the first `n` of the
/// others the player, where it stands after its move, makes at most `n`
/// contacts, none if it overlaps none of them and `n` if it overlaps them
/// all, whatever it had recorded before. And a frame leaves the records of
/// the others as they were: only the player keeps contacts.
pub proof fn lemma_contacts_are_of_the_frame(model: EntitiesModel, dt: int, n: int)
    requires
        0 <= n <= model.entities.len(),
    ensures
        contacts_upto(player_step(model.player, dt), model.entities, n).len() <= n,
        (forall|i: int|
            0 <= i < n ==> !player_step(model.player, dt).hitbox().overlaps(
                (#[trigger] model.entities[i]).hitbox(),
            )) ==> contacts_upto(player_step(model.player, dt), model.entities, n).len() == 0,
        (forall|i: int|
            0 <= i < n ==> player_step(model.player, dt).hitbox().overlaps(
                (#[trigger] model.entities[i]).hitbox(),
            )) ==> contacts_upto(player_step(model.player, dt), model.entities, n).len() == n,
        forall|i: int|
            0 <= i < model.entities.len() ==> (#[trigger] frame_step(model, dt).entities[i])
                .colliding_entities == model.entities[i].colliding_entities,
    decreases n,
{
    if n > 0 {
        lemma_contacts_are_of_the_frame(model, dt, n - 1);
    }
}

/// One enemy in contact costs its damage once: where the player, after its
/// move, overlaps the only other entity, the frame leaves exactly that
/// entity's contact on the player, and the frame that follows takes the
/// entity's damage off the player's health once, however long either frame
/// is.
pub proof fn lemma_one_contact_costs_its_damage_once(model: EntitiesModel, dt: int, next: int)
    requires
        model.valid(),
        model.entities.len() == 1,
        player_step(model.player, dt).hitbox().overlaps(model.entities[0].hitbox()),
    ensures
        frame_step(model, dt).player.colliding_entities == seq![model.entities[0].contact()],
        frame_step(frame_step(model, dt), next).player.hp == health_after(
            frame_step(model, dt).player.hp,
            model.entities[0].damage,
        ),
{
    let player = player_step(model.player, dt);
    let contact = model.entities[0].contact();
    reveal_with_fuel(contacts_upto, 2);
    let contacts = contacts_upto(player, model.entities, 1);
    assert(contacts =~= seq![contact]);
    assert(contacts.drop_last() =~= Seq::<Contact>::empty());
    reveal_with_fuel(total_damage, 2);
    assert(total_damage(contacts) == contact.damage);
}

/// The player and the other entities, in the order in which they were
/// added.
#[derive(Debug)]
pub struct Entities {
    pub player: Player,
    pub entities: Vec<Enemy>,
}

impl View for Entities {
    type V = EntitiesModel;

    open spec fn view(&self) -> EntitiesModel {
        EntitiesModel {
            player: self.player@,
            entities: Seq::new(self.entities@.len(), |i: int| self.entities@[i]@),
        }
    }
}

impl Entities {
    /// Advances every entity by one frame of `dt` microseconds, see
    /// [`frame_step`], and leaves the player's new position in `state`.
    pub fn update(&mut self, dt: u64, state: &mut LevelState)
        ensures
            final(self)@ == frame_step(old(self)@, dt as int),
            final(state)@ == (LevelStateModel {
                player_position: final(self)@.player.pos,
                ..old(state)@
            }),
    {
        let ghost before = self@;
        let ghost player = player_step(before.player, dt as int);
        self.player.update(dt, state);
        let mut i: usize = 0;
        while i < self.entities.len()
            invariant
                i <= self.entities@.len(),
                self.entities@.len() == before.entities.len(),
                forall|j: int| 0 <= j < i ==> (#[trigger] self.entities@[j])@ == enemy_step(
                    before.entities[j],
                    dt as int,
                    player.pos,
                ),
                forall|j: int|
                    i <= j < self.entities@.len() ==> (#[trigger] self.entities@[j])@
                        == before.entities[j],
                self.player@ == (Body {
                    colliding_entities: contacts_upto(player, before.entities, i as int),
                    ..player
                }),
                state@ == (LevelStateModel { player_position: player.pos, ..old(state)@ }),
            decreases self.entities@.len() - i,
        {
            if self.player.does_collide(&self.entities[i]) {
                self.player.collides(&self.entities[i]);
            }
            self.entities[i].update(dt, state);
            i = i + 1;
        }
        proof {
            assert(self@.entities =~= frame_step(before, dt as int).entities);
        }
    }

    /// Lays out what there is to draw: the player, then every other entity
    /// in order.
    pub fn render(&self, state: &LevelState) -> (picture: Vec<DrawCommand>)
        ensures
            picture@ == player_picture(self@.player, state@) + pictures_upto(
                self@.entities,
                state@,
                self@.entities.len() as int,
            ),
    {
        let mut picture: Vec<DrawCommand> = self.player.render(state);
        let mut i: usize = 0;
        while i < self.entities.len()
            invariant
                i <= self.entities@.len(),
                picture@ == player_picture(self@.player, state@) + pictures_upto(
                    self@.entities,
                    state@,
                    i as int,
                ),
            decreases self.entities@.len() - i,
        {
            let mut next = self.entities[i].render(state);
            picture.append(&mut next);
            proof {
                assert(picture@ =~= player_picture(self@.player, state@) + pictures_upto(
                    self@.entities,
                    state@,
                    i + 1,
                ));
            }
            i = i + 1;
        }
        picture
    }

    /// Hands an input event to the player. Nothing else takes input.
    pub fn handle_input(&mut self, e: &InputEvent)
        ensures
            final(self)@ == (EntitiesModel {
                player: player_input(old(self)@.player, *e),
                ..old(self)@
            }),
    {
        self.player.handle_input(e);
    }
}

} // verus!
