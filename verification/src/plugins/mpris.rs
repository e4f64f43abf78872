//! Remote control of media players.

use crate::field::{
    check_object, get_opt_bool, get_opt_number, get_opt_text, get_opt_texts, group_field_laws,
    group_wf_laws, new_members, object_check, object_of, opt_bool, opt_bool_json, opt_bool_model,
    opt_literal, opt_number, opt_number_json, opt_number_model, opt_number_view, opt_text,
    opt_text_json, opt_text_model, opt_text_view, opt_texts, opt_texts_json, opt_texts_model,
    opt_texts_view, put,
};
use crate::numeral::Number;
use crate::shape::{
    get_opt_word, get_word, group_shape_laws, group_shape_refusals, group_shape_wf_laws, opt_word,
    opt_word_json, opt_word_wire, req_word, word_json, word_wire, Shape, Word,
};
use crate::value::{
    distinct_keys, group_lookup, key_mark, lemma_undeclared, names_of, same_text, undeclared, Json,
    JsonModel, Member,
};
use vstd::prelude::*;

verus! {

/// How a player repeats what it plays.
#[derive(Debug, Clone, Copy, PartialEq, Eq, Structural)]
pub enum LoopType {
    NoLoop,
    TrackList,
    PlayList,
}

impl Word for LoopType {
    open spec fn name(self) -> Seq<char> {
        match self {
            LoopType::NoLoop => "none"@,
            LoopType::TrackList => "trackList"@,
            LoopType::PlayList => "playList"@,
        }
    }

    open spec fn from_name(name: Seq<char>) -> Option<LoopType> {
        if name == "none"@ {
            Some(LoopType::NoLoop)
        } else if name == "trackList"@ {
            Some(LoopType::TrackList)
        } else if name == "playList"@ {
            Some(LoopType::PlayList)
        } else {
            None
        }
    }

    fn as_str(&self) -> (s: &'static str) {
        match self {
            LoopType::NoLoop => "none",
            LoopType::TrackList => "trackList",
            LoopType::PlayList => "playList",
        }
    }

    fn from_str(name: &str) -> (r: Option<LoopType>) {
        if same_text(name, "none") {
            Some(LoopType::NoLoop)
        } else if same_text(name, "trackList") {
            Some(LoopType::TrackList)
        } else if same_text(name, "playList") {
            Some(LoopType::PlayList)
        } else {
            None
        }
    }

    proof fn lemma_name_round_trip(x: LoopType) {
        broadcast use vstd::string::group_string_axioms;
        reveal_strlit("none");
        reveal_strlit("trackList");
        reveal_strlit("playList");
        // No two names agree in their marks.
        assert(key_mark("none"@).0 == 4);
        assert(key_mark("trackList"@).0 == 9);
        assert(key_mark("playList"@).0 == 8);
    }
}

/// What a player is asked to do.
#[derive(Debug, Clone, Copy, PartialEq, Eq, Structural)]
pub enum MprisAction {
    Pause,
    Play,
    PlayPause,
    Stop,
    Next,
    Previous,
}

impl Word for MprisAction {
    open spec fn name(self) -> Seq<char> {
        match self {
            MprisAction::Pause => "pause"@,
            MprisAction::Play => "play"@,
            MprisAction::PlayPause => "playPause"@,
            MprisAction::Stop => "stop"@,
            MprisAction::Next => "next"@,
            MprisAction::Previous => "previous"@,
        }
    }

    open spec fn from_name(name: Seq<char>) -> Option<MprisAction> {
        if name == "pause"@ {
            Some(MprisAction::Pause)
        } else if name == "play"@ {
            Some(MprisAction::Play)
        } else if name == "playPause"@ {
            Some(MprisAction::PlayPause)
        } else if name == "stop"@ {
            Some(MprisAction::Stop)
        } else if name == "next"@ {
            Some(MprisAction::Next)
        } else if name == "previous"@ {
            Some(MprisAction::Previous)
        } else {
            None
        }
    }

    fn as_str(&self) -> (s: &'static str) {
        match self {
            MprisAction::Pause => "pause",
            MprisAction::Play => "play",
            MprisAction::PlayPause => "playPause",
            MprisAction::Stop => "stop",
            MprisAction::Next => "next",
            MprisAction::Previous => "previous",
        }
    }

    fn from_str(name: &str) -> (r: Option<MprisAction>) {
        if same_text(name, "pause") {
            Some(MprisAction::Pause)
        } else if same_text(name, "play") {
            Some(MprisAction::Play)
        } else if same_text(name, "playPause") {
            Some(MprisAction::PlayPause)
        } else if same_text(name, "stop") {
            Some(MprisAction::Stop)
        } else if same_text(name, "next") {
            Some(MprisAction::Next)
        } else if same_text(name, "previous") {
            Some(MprisAction::Previous)
        } else {
            None
        }
    }

    proof fn lemma_name_round_trip(x: MprisAction) {
        broadcast use vstd::string::group_string_axioms;
        reveal_strlit("pause");
        reveal_strlit("play");
        reveal_strlit("playPause");
        reveal_strlit("stop");
        reveal_strlit("next");
        reveal_strlit("previous");
        // No two names agree in their marks.
        assert(key_mark("pause"@).0 == 5);
        assert(key_mark("play"@).0 == 4);
        assert(key_mark("playPause"@).0 == 9);
        assert(key_mark("stop"@).0 == 4);
        assert(key_mark("next"@).0 == 4);
        assert(key_mark("previous"@).0 == 8);
    }
}

/// The players of a device, or the state of one of them.
#[derive(Debug, PartialEq, Eq)]
pub struct Mpris {
    pub player_list: Option<Vec<String>>,
    pub player: Option<String>,
    pub can_pause: Option<bool>,
    pub can_play: Option<bool>,
    pub can_go_next: Option<bool>,
    pub can_go_previous: Option<bool>,
    pub can_seek: Option<bool>,
    pub loop_status: Option<LoopType>,
    pub shuffle: Option<bool>,
    pub pos: Option<Number>,
    pub album_art_url: Option<String>,
    pub now_playing: Option<String>,
    pub artist: Option<String>,
    pub title: Option<String>,
    pub album: Option<String>,
    pub length: Option<Number>,
    pub volume: Option<Number>,
    pub support_album_art_payload: Option<bool>,
    pub transferring_album_art: Option<bool>,
}

/// Model of [`Mpris`].
pub struct MprisView {
    pub player_list: Option<Seq<Seq<char>>>,
    pub player: Option<Seq<char>>,
    pub can_pause: Option<bool>,
    pub can_play: Option<bool>,
    pub can_go_next: Option<bool>,
    pub can_go_previous: Option<bool>,
    pub can_seek: Option<bool>,
    pub loop_status: Option<LoopType>,
    pub shuffle: Option<bool>,
    pub pos: Option<Seq<char>>,
    pub album_art_url: Option<Seq<char>>,
    pub now_playing: Option<Seq<char>>,
    pub artist: Option<Seq<char>>,
    pub title: Option<Seq<char>>,
    pub album: Option<Seq<char>>,
    pub length: Option<Seq<char>>,
    pub volume: Option<Seq<char>>,
    pub support_album_art_payload: Option<bool>,
    pub transferring_album_art: Option<bool>,
}

impl View for Mpris {
    type V = MprisView;

    open spec fn view(&self) -> MprisView {
        MprisView {
            player_list: opt_texts_view(self.player_list),
            player: opt_text_view(self.player),
            can_pause: self.can_pause,
            can_play: self.can_play,
            can_go_next: self.can_go_next,
            can_go_previous: self.can_go_previous,
            can_seek: self.can_seek,
            loop_status: self.loop_status,
            shuffle: self.shuffle,
            pos: opt_number_view(self.pos),
            album_art_url: opt_text_view(self.album_art_url),
            now_playing: opt_text_view(self.now_playing),
            artist: opt_text_view(self.artist),
            title: opt_text_view(self.title),
            album: opt_text_view(self.album),
            length: opt_number_view(self.length),
            volume: opt_number_view(self.volume),
            support_album_art_payload: self.support_album_art_payload,
            transferring_album_art: self.transferring_album_art,
        }
    }
}

impl Shape for Mpris {
    open spec fn wire(v: MprisView) -> JsonModel {
        JsonModel::Object(
            Seq::empty()
                .push(Member { key: "playerList"@, value: opt_texts_model(v.player_list) })
                .push(Member { key: "player"@, value: opt_text_model(v.player) })
                .push(Member { key: "canPause"@, value: opt_bool_model(v.can_pause) })
                .push(Member { key: "canPlay"@, value: opt_bool_model(v.can_play) })
                .push(Member { key: "canGoNext"@, value: opt_bool_model(v.can_go_next) })
                .push(Member { key: "canGoPrevious"@, value: opt_bool_model(v.can_go_previous) })
                .push(Member { key: "canSeek"@, value: opt_bool_model(v.can_seek) })
                .push(Member { key: "loopStatus"@, value: opt_word_wire(v.loop_status) })
                .push(Member { key: "shuffle"@, value: opt_bool_model(v.shuffle) })
                .push(Member { key: "pos"@, value: opt_number_model(v.pos) })
                .push(Member { key: "albumArtUrl"@, value: opt_text_model(v.album_art_url) })
                .push(Member { key: "nowPlaying"@, value: opt_text_model(v.now_playing) })
                .push(Member { key: "artist"@, value: opt_text_model(v.artist) })
                .push(Member { key: "title"@, value: opt_text_model(v.title) })
                .push(Member { key: "album"@, value: opt_text_model(v.album) })
                .push(Member { key: "length"@, value: opt_number_model(v.length) })
                .push(Member { key: "volume"@, value: opt_number_model(v.volume) })
                .push(
                    Member {
                        key: "supportAlbumArtPayload"@,
                        value: opt_bool_model(v.support_album_art_payload),
                    },
                )
                .push(
                    Member {
                        key: "transferringAlbumArt"@,
                        value: opt_bool_model(v.transferring_album_art),
                    },
                ),
        )
    }

    open spec fn parse(j: JsonModel) -> Result<MprisView, Seq<char>> {
        if object_check(j) is Err {
            Err(Seq::empty())
        } else if opt_texts(j, "playerList"@) is Err {
            Err("playerList"@)
        } else if opt_text(j, "player"@) is Err {
            Err("player"@)
        } else if opt_bool(j, "canPause"@) is Err {
            Err("canPause"@)
        } else if opt_bool(j, "canPlay"@) is Err {
            Err("canPlay"@)
        } else if opt_bool(j, "canGoNext"@) is Err {
            Err("canGoNext"@)
        } else if opt_bool(j, "canGoPrevious"@) is Err {
            Err("canGoPrevious"@)
        } else if opt_bool(j, "canSeek"@) is Err {
            Err("canSeek"@)
        } else if opt_word::<LoopType>(j, "loopStatus"@) is Err {
            Err("loopStatus"@)
        } else if opt_bool(j, "shuffle"@) is Err {
            Err("shuffle"@)
        } else if opt_number(j, "pos"@) is Err {
            Err("pos"@)
        } else if opt_text(j, "albumArtUrl"@) is Err {
            Err("albumArtUrl"@)
        } else if opt_text(j, "nowPlaying"@) is Err {
            Err("nowPlaying"@)
        } else if opt_text(j, "artist"@) is Err {
            Err("artist"@)
        } else if opt_text(j, "title"@) is Err {
            Err("title"@)
        } else if opt_text(j, "album"@) is Err {
            Err("album"@)
        } else if opt_number(j, "length"@) is Err {
            Err("length"@)
        } else if opt_number(j, "volume"@) is Err {
            Err("volume"@)
        } else if opt_bool(j, "supportAlbumArtPayload"@) is Err {
            Err("supportAlbumArtPayload"@)
        } else if opt_bool(j, "transferringAlbumArt"@) is Err {
            Err("transferringAlbumArt"@)
        } else if undeclared(j, Self::declared()) is Some {
            Err(undeclared(j, Self::declared())->Some_0)
        } else {
            Ok(
                MprisView {
                    player_list: opt_texts(j, "playerList"@)->Ok_0,
                    player: opt_text(j, "player"@)->Ok_0,
                    can_pause: opt_bool(j, "canPause"@)->Ok_0,
                    can_play: opt_bool(j, "canPlay"@)->Ok_0,
                    can_go_next: opt_bool(j, "canGoNext"@)->Ok_0,
                    can_go_previous: opt_bool(j, "canGoPrevious"@)->Ok_0,
                    can_seek: opt_bool(j, "canSeek"@)->Ok_0,
                    loop_status: opt_word::<LoopType>(j, "loopStatus"@)->Ok_0,
                    shuffle: opt_bool(j, "shuffle"@)->Ok_0,
                    pos: opt_number(j, "pos"@)->Ok_0,
                    album_art_url: opt_text(j, "albumArtUrl"@)->Ok_0,
                    now_playing: opt_text(j, "nowPlaying"@)->Ok_0,
                    artist: opt_text(j, "artist"@)->Ok_0,
                    title: opt_text(j, "title"@)->Ok_0,
                    album: opt_text(j, "album"@)->Ok_0,
                    length: opt_number(j, "length"@)->Ok_0,
                    volume: opt_number(j, "volume"@)->Ok_0,
                    support_album_art_payload: opt_bool(j, "supportAlbumArtPayload"@)->Ok_0,
                    transferring_album_art: opt_bool(j, "transferringAlbumArt"@)->Ok_0,
                },
            )
        }
    }

    open spec fn declared() -> Set<Seq<char>> {
        Set::empty()
            .insert("playerList"@)
            .insert("player"@)
            .insert("canPause"@)
            .insert("canPlay"@)
            .insert("canGoNext"@)
            .insert("canGoPrevious"@)
            .insert("canSeek"@)
            .insert("loopStatus"@)
            .insert("shuffle"@)
            .insert("pos"@)
            .insert("albumArtUrl"@)
            .insert("nowPlaying"@)
            .insert("artist"@)
            .insert("title"@)
            .insert("album"@)
            .insert("length"@)
            .insert("volume"@)
            .insert("supportAlbumArtPayload"@)
            .insert("transferringAlbumArt"@)
    }

    open spec fn required() -> Set<Seq<char>> {
        Set::empty()
    }

    open spec fn wf(v: MprisView) -> bool {
        true
    }

    open spec fn writable(v: MprisView) -> bool {
        &&& opt_literal(v.pos)
        &&& opt_literal(v.length)
        &&& opt_literal(v.volume)
    }

    fn to_json(&self) -> (j: Json) {
        let mut ms = new_members();
        put(&mut ms, "playerList", opt_texts_json(&self.player_list));
        put(&mut ms, "player", opt_text_json(&self.player));
        put(&mut ms, "canPause", opt_bool_json(&self.can_pause));
        put(&mut ms, "canPlay", opt_bool_json(&self.can_play));
        put(&mut ms, "canGoNext", opt_bool_json(&self.can_go_next));
        put(&mut ms, "canGoPrevious", opt_bool_json(&self.can_go_previous));
        put(&mut ms, "canSeek", opt_bool_json(&self.can_seek));
        put(&mut ms, "loopStatus", opt_word_json(&self.loop_status));
        put(&mut ms, "shuffle", opt_bool_json(&self.shuffle));
        put(&mut ms, "pos", opt_number_json(&self.pos));
        put(&mut ms, "albumArtUrl", opt_text_json(&self.album_art_url));
        put(&mut ms, "nowPlaying", opt_text_json(&self.now_playing));
        put(&mut ms, "artist", opt_text_json(&self.artist));
        put(&mut ms, "title", opt_text_json(&self.title));
        put(&mut ms, "album", opt_text_json(&self.album));
        put(&mut ms, "length", opt_number_json(&self.length));
        put(&mut ms, "volume", opt_number_json(&self.volume));
        put(&mut ms, "supportAlbumArtPayload", opt_bool_json(&self.support_album_art_payload));
        put(&mut ms, "transferringAlbumArt", opt_bool_json(&self.transferring_album_art));
        object_of(ms)
    }

    fn from_json(j: &Json) -> (r: Result<Mpris, String>) {
        match check_object(j) {
            Ok(_) => {},
            Err(e) => return Err(e),
        }
        let player_list = match get_opt_texts(j, "playerList") {
            Ok(x) => x,
            Err(e) => return Err(e),
        };
        let player = match get_opt_text(j, "player") {
            Ok(x) => x,
            Err(e) => return Err(e),
        };
        let can_pause = match get_opt_bool(j, "canPause") {
            Ok(x) => x,
            Err(e) => return Err(e),
        };
        let can_play = match get_opt_bool(j, "canPlay") {
            Ok(x) => x,
            Err(e) => return Err(e),
        };
        let can_go_next = match get_opt_bool(j, "canGoNext") {
            Ok(x) => x,
            Err(e) => return Err(e),
        };
        let can_go_previous = match get_opt_bool(j, "canGoPrevious") {
            Ok(x) => x,
            Err(e) => return Err(e),
        };
        let can_seek = match get_opt_bool(j, "canSeek") {
            Ok(x) => x,
            Err(e) => return Err(e),
        };
        let loop_status = match get_opt_word::<LoopType>(j, "loopStatus") {
            Ok(x) => x,
            Err(e) => return Err(e),
        };
        let shuffle = match get_opt_bool(j, "shuffle") {
            Ok(x) => x,
            Err(e) => return Err(e),
        };
        let pos = match get_opt_number(j, "pos") {
            Ok(x) => x,
            Err(e) => return Err(e),
        };
        let album_art_url = match get_opt_text(j, "albumArtUrl") {
            Ok(x) => x,
            Err(e) => return Err(e),
        };
        let now_playing = match get_opt_text(j, "nowPlaying") {
            Ok(x) => x,
            Err(e) => return Err(e),
        };
        let artist = match get_opt_text(j, "artist") {
            Ok(x) => x,
            Err(e) => return Err(e),
        };
        let title = match get_opt_text(j, "title") {
            Ok(x) => x,
            Err(e) => return Err(e),
        };
        let album = match get_opt_text(j, "album") {
            Ok(x) => x,
            Err(e) => return Err(e),
        };
        let length = match get_opt_number(j, "length") {
            Ok(x) => x,
            Err(e) => return Err(e),
        };
        let volume = match get_opt_number(j, "volume") {
            Ok(x) => x,
            Err(e) => return Err(e),
        };
        let support_album_art_payload = match get_opt_bool(j, "supportAlbumArtPayload") {
            Ok(x) => x,
            Err(e) => return Err(e),
        };
        let transferring_album_art = match get_opt_bool(j, "transferringAlbumArt") {
            Ok(x) => x,
            Err(e) => return Err(e),
        };
        let names: Vec<String> = vec![
            "playerList".to_owned(),
            "player".to_owned(),
            "canPause".to_owned(),
            "canPlay".to_owned(),
            "canGoNext".to_owned(),
            "canGoPrevious".to_owned(),
            "canSeek".to_owned(),
            "loopStatus".to_owned(),
            "shuffle".to_owned(),
            "pos".to_owned(),
            "albumArtUrl".to_owned(),
            "nowPlaying".to_owned(),
            "artist".to_owned(),
            "title".to_owned(),
            "album".to_owned(),
            "length".to_owned(),
            "volume".to_owned(),
            "supportAlbumArtPayload".to_owned(),
            "transferringAlbumArt".to_owned(),
        ];
        assert(names_of(names@) =~= Self::declared()) by {
            assert(names@[0]@ == "playerList"@);
            assert(names@[1]@ == "player"@);
            assert(names@[2]@ == "canPause"@);
            assert(names@[3]@ == "canPlay"@);
            assert(names@[4]@ == "canGoNext"@);
            assert(names@[5]@ == "canGoPrevious"@);
            assert(names@[6]@ == "canSeek"@);
            assert(names@[7]@ == "loopStatus"@);
            assert(names@[8]@ == "shuffle"@);
            assert(names@[9]@ == "pos"@);
            assert(names@[10]@ == "albumArtUrl"@);
            assert(names@[11]@ == "nowPlaying"@);
            assert(names@[12]@ == "artist"@);
            assert(names@[13]@ == "title"@);
            assert(names@[14]@ == "album"@);
            assert(names@[15]@ == "length"@);
            assert(names@[16]@ == "volume"@);
            assert(names@[17]@ == "supportAlbumArtPayload"@);
            assert(names@[18]@ == "transferringAlbumArt"@);
        }
        match j.first_besides(&names) {
            Some(key) => return Err(key),
            None => {},
        }
        Ok(
            Mpris {
                player_list,
                player,
                can_pause,
                can_play,
                can_go_next,
                can_go_previous,
                can_seek,
                loop_status,
                shuffle,
                pos,
                album_art_url,
                now_playing,
                artist,
                title,
                album,
                length,
                volume,
                support_album_art_payload,
                transferring_album_art,
            },
        )
    }

    proof fn lemma_round_trip(v: MprisView) {
        broadcast use {
            group_lookup,
            group_field_laws,
            group_shape_laws,
            vstd::string::group_string_axioms,
        };
        reveal_strlit("playerList");
        reveal_strlit("player");
        reveal_strlit("canPause");
        reveal_strlit("canPlay");
        reveal_strlit("canGoNext");
        reveal_strlit("canGoPrevious");
        reveal_strlit("canSeek");
        reveal_strlit("loopStatus");
        reveal_strlit("shuffle");
        reveal_strlit("pos");
        reveal_strlit("albumArtUrl");
        reveal_strlit("nowPlaying");
        reveal_strlit("artist");
        reveal_strlit("title");
        reveal_strlit("album");
        reveal_strlit("length");
        reveal_strlit("volume");
        reveal_strlit("supportAlbumArtPayload");
        reveal_strlit("transferringAlbumArt");
        let j = Self::wire(v);
        assert(opt_texts(j, "playerList"@) == Ok::<Option<Seq<Seq<char>>>, Seq<char>>(
            v.player_list,
        ));
        assert(opt_text(j, "player"@) == Ok::<Option<Seq<char>>, Seq<char>>(v.player));
        assert(opt_bool(j, "canPause"@) == Ok::<Option<bool>, Seq<char>>(v.can_pause));
        assert(opt_bool(j, "canPlay"@) == Ok::<Option<bool>, Seq<char>>(v.can_play));
        assert(opt_bool(j, "canGoNext"@) == Ok::<Option<bool>, Seq<char>>(v.can_go_next));
        assert(opt_bool(j, "canGoPrevious"@) == Ok::<Option<bool>, Seq<char>>(v.can_go_previous));
        assert(opt_bool(j, "canSeek"@) == Ok::<Option<bool>, Seq<char>>(v.can_seek));
        assert(opt_word::<LoopType>(j, "loopStatus"@) == Ok::<Option<LoopType>, Seq<char>>(
            v.loop_status,
        ));
        assert(opt_bool(j, "shuffle"@) == Ok::<Option<bool>, Seq<char>>(v.shuffle));
        assert(opt_number(j, "pos"@) == Ok::<Option<Seq<char>>, Seq<char>>(v.pos));
        assert(opt_text(j, "albumArtUrl"@) == Ok::<Option<Seq<char>>, Seq<char>>(v.album_art_url));
        assert(opt_text(j, "nowPlaying"@) == Ok::<Option<Seq<char>>, Seq<char>>(v.now_playing));
        assert(opt_text(j, "artist"@) == Ok::<Option<Seq<char>>, Seq<char>>(v.artist));
        assert(opt_text(j, "title"@) == Ok::<Option<Seq<char>>, Seq<char>>(v.title));
        assert(opt_text(j, "album"@) == Ok::<Option<Seq<char>>, Seq<char>>(v.album));
        assert(opt_number(j, "length"@) == Ok::<Option<Seq<char>>, Seq<char>>(v.length));
        assert(opt_number(j, "volume"@) == Ok::<Option<Seq<char>>, Seq<char>>(v.volume));
        assert(opt_bool(j, "supportAlbumArtPayload"@) == Ok::<Option<bool>, Seq<char>>(
            v.support_album_art_payload,
        ));
        assert(opt_bool(j, "transferringAlbumArt"@) == Ok::<Option<bool>, Seq<char>>(
            v.transferring_album_art,
        ));
        assert(undeclared(j, Self::declared()) is None);
    }

    proof fn lemma_wire_wf(v: MprisView) {
        broadcast use {group_wf_laws, group_shape_wf_laws, vstd::string::group_string_axioms};
        reveal_strlit("playerList");
        reveal_strlit("player");
        reveal_strlit("canPause");
        reveal_strlit("canPlay");
        reveal_strlit("canGoNext");
        reveal_strlit("canGoPrevious");
        reveal_strlit("canSeek");
        reveal_strlit("loopStatus");
        reveal_strlit("shuffle");
        reveal_strlit("pos");
        reveal_strlit("albumArtUrl");
        reveal_strlit("nowPlaying");
        reveal_strlit("artist");
        reveal_strlit("title");
        reveal_strlit("album");
        reveal_strlit("length");
        reveal_strlit("volume");
        reveal_strlit("supportAlbumArtPayload");
        reveal_strlit("transferringAlbumArt");
        let ms = Self::wire(v)->Object_0;
        assert(ms.len() == 19);
        assert(ms[0].key == "playerList"@ && key_mark(ms[0].key).0 == 10);
        assert(ms[1].key == "player"@ && key_mark(ms[1].key).0 == 6);
        assert(ms[2].key == "canPause"@ && key_mark(ms[2].key).0 == 8);
        assert(ms[3].key == "canPlay"@ && key_mark(ms[3].key).0 == 7);
        assert(ms[4].key == "canGoNext"@ && key_mark(ms[4].key).0 == 9);
        assert(ms[5].key == "canGoPrevious"@ && key_mark(ms[5].key).0 == 13);
        assert(ms[6].key == "canSeek"@ && key_mark(ms[6].key).0 == 7);
        assert(ms[7].key == "loopStatus"@ && key_mark(ms[7].key).0 == 10);
        assert(ms[8].key == "shuffle"@ && key_mark(ms[8].key).0 == 7);
        assert(ms[9].key == "pos"@ && key_mark(ms[9].key).0 == 3);
        assert(ms[10].key == "albumArtUrl"@ && key_mark(ms[10].key).0 == 11);
        assert(ms[11].key == "nowPlaying"@ && key_mark(ms[11].key).0 == 10);
        assert(ms[12].key == "artist"@ && key_mark(ms[12].key).0 == 6);
        assert(ms[13].key == "title"@ && key_mark(ms[13].key).0 == 5);
        assert(ms[14].key == "album"@ && key_mark(ms[14].key).0 == 5);
        assert(ms[15].key == "length"@ && key_mark(ms[15].key).0 == 6);
        assert(ms[16].key == "volume"@ && key_mark(ms[16].key).0 == 6);
        assert(ms[17].key == "supportAlbumArtPayload"@ && key_mark(ms[17].key).0 == 22);
        assert(ms[18].key == "transferringAlbumArt"@ && key_mark(ms[18].key).0 == 20);
        assert(distinct_keys(ms));
        assert(ms[0].value.wf());
        assert(ms[1].value.wf());
        assert(ms[2].value.wf());
        assert(ms[3].value.wf());
        assert(ms[4].value.wf());
        assert(ms[5].value.wf());
        assert(ms[6].value.wf());
        assert(ms[7].value.wf());
        assert(ms[8].value.wf());
        assert(ms[9].value.wf() == opt_literal(v.pos));
        assert(ms[10].value.wf());
        assert(ms[11].value.wf());
        assert(ms[12].value.wf());
        assert(ms[13].value.wf());
        assert(ms[14].value.wf());
        assert(ms[15].value.wf() == opt_literal(v.length));
        assert(ms[16].value.wf() == opt_literal(v.volume));
        assert(ms[17].value.wf());
        assert(ms[18].value.wf());
    }

    proof fn lemma_unfit_is_refused(j: JsonModel) {
        lemma_undeclared(j, Self::declared());
    }
}

/// Asks a device about its players, or a player to do something.
#[derive(Debug, PartialEq, Eq)]
pub struct MprisRequest {
    pub player: Option<String>,
    pub request_now_playing: Option<bool>,
    pub request_player_list: Option<bool>,
    pub request_volume: Option<bool>,
    pub seek: Option<Number>,
    pub set_loop_status: Option<LoopType>,
    pub set_position: Option<Number>,
    pub set_shuffle: Option<bool>,
    pub set_volume: Option<bool>,
    pub action: MprisAction,
}

/// Model of [`MprisRequest`].
pub struct MprisRequestView {
    pub player: Option<Seq<char>>,
    pub request_now_playing: Option<bool>,
    pub request_player_list: Option<bool>,
    pub request_volume: Option<bool>,
    pub seek: Option<Seq<char>>,
    pub set_loop_status: Option<LoopType>,
    pub set_position: Option<Seq<char>>,
    pub set_shuffle: Option<bool>,
    pub set_volume: Option<bool>,
    pub action: MprisAction,
}

impl View for MprisRequest {
    type V = MprisRequestView;

    open spec fn view(&self) -> MprisRequestView {
        MprisRequestView {
            player: opt_text_view(self.player),
            request_now_playing: self.request_now_playing,
            request_player_list: self.request_player_list,
            request_volume: self.request_volume,
            seek: opt_number_view(self.seek),
            set_loop_status: self.set_loop_status,
            set_position: opt_number_view(self.set_position),
            set_shuffle: self.set_shuffle,
            set_volume: self.set_volume,
            action: self.action,
        }
    }
}

impl Shape for MprisRequest {
    open spec fn wire(v: MprisRequestView) -> JsonModel {
        JsonModel::Object(
            Seq::empty()
                .push(Member { key: "player"@, value: opt_text_model(v.player) })
                .push(
                    Member {
                        key: "requestNowPlaying"@,
                        value: opt_bool_model(v.request_now_playing),
                    },
                )
                .push(
                    Member {
                        key: "requestPlayerList"@,
                        value: opt_bool_model(v.request_player_list),
                    },
                )
                .push(Member { key: "requestVolume"@, value: opt_bool_model(v.request_volume) })
                .push(Member { key: "Seek"@, value: opt_number_model(v.seek) })
                .push(Member { key: "setLoopStatus"@, value: opt_word_wire(v.set_loop_status) })
                .push(Member { key: "setPosition"@, value: opt_number_model(v.set_position) })
                .push(Member { key: "setShuffle"@, value: opt_bool_model(v.set_shuffle) })
                .push(Member { key: "setVolume"@, value: opt_bool_model(v.set_volume) })
                .push(Member { key: "action"@, value: word_wire(v.action) }),
        )
    }

    open spec fn parse(j: JsonModel) -> Result<MprisRequestView, Seq<char>> {
        if object_check(j) is Err {
            Err(Seq::empty())
        } else if opt_text(j, "player"@) is Err {
            Err("player"@)
        } else if opt_bool(j, "requestNowPlaying"@) is Err {
            Err("requestNowPlaying"@)
        } else if opt_bool(j, "requestPlayerList"@) is Err {
            Err("requestPlayerList"@)
        } else if opt_bool(j, "requestVolume"@) is Err {
            Err("requestVolume"@)
        } else if opt_number(j, "Seek"@) is Err {
            Err("Seek"@)
        } else if opt_word::<LoopType>(j, "setLoopStatus"@) is Err {
            Err("setLoopStatus"@)
        } else if opt_number(j, "setPosition"@) is Err {
            Err("setPosition"@)
        } else if opt_bool(j, "setShuffle"@) is Err {
            Err("setShuffle"@)
        } else if opt_bool(j, "setVolume"@) is Err {
            Err("setVolume"@)
        } else if req_word::<MprisAction>(j, "action"@) is Err {
            Err("action"@)
        } else if undeclared(j, Self::declared()) is Some {
            Err(undeclared(j, Self::declared())->Some_0)
        } else {
            Ok(
                MprisRequestView {
                    player: opt_text(j, "player"@)->Ok_0,
                    request_now_playing: opt_bool(j, "requestNowPlaying"@)->Ok_0,
                    request_player_list: opt_bool(j, "requestPlayerList"@)->Ok_0,
                    request_volume: opt_bool(j, "requestVolume"@)->Ok_0,
                    seek: opt_number(j, "Seek"@)->Ok_0,
                    set_loop_status: opt_word::<LoopType>(j, "setLoopStatus"@)->Ok_0,
                    set_position: opt_number(j, "setPosition"@)->Ok_0,
                    set_shuffle: opt_bool(j, "setShuffle"@)->Ok_0,
                    set_volume: opt_bool(j, "setVolume"@)->Ok_0,
                    action: req_word::<MprisAction>(j, "action"@)->Ok_0,
                },
            )
        }
    }

    open spec fn declared() -> Set<Seq<char>> {
        Set::empty()
            .insert("player"@)
            .insert("requestNowPlaying"@)
            .insert("requestPlayerList"@)
            .insert("requestVolume"@)
            .insert("Seek"@)
            .insert("setLoopStatus"@)
            .insert("setPosition"@)
            .insert("setShuffle"@)
            .insert("setVolume"@)
            .insert("action"@)
    }

    open spec fn required() -> Set<Seq<char>> {
        Set::empty().insert("action"@)
    }

    open spec fn wf(v: MprisRequestView) -> bool {
        true
    }

    open spec fn writable(v: MprisRequestView) -> bool {
        &&& opt_literal(v.seek)
        &&& opt_literal(v.set_position)
    }

    fn to_json(&self) -> (j: Json) {
        let mut ms = new_members();
        put(&mut ms, "player", opt_text_json(&self.player));
        put(&mut ms, "requestNowPlaying", opt_bool_json(&self.request_now_playing));
        put(&mut ms, "requestPlayerList", opt_bool_json(&self.request_player_list));
        put(&mut ms, "requestVolume", opt_bool_json(&self.request_volume));
        put(&mut ms, "Seek", opt_number_json(&self.seek));
        put(&mut ms, "setLoopStatus", opt_word_json(&self.set_loop_status));
        put(&mut ms, "setPosition", opt_number_json(&self.set_position));
        put(&mut ms, "setShuffle", opt_bool_json(&self.set_shuffle));
        put(&mut ms, "setVolume", opt_bool_json(&self.set_volume));
        put(&mut ms, "action", word_json(&self.action));
        object_of(ms)
    }

    fn from_json(j: &Json) -> (r: Result<MprisRequest, String>) {
        match check_object(j) {
            Ok(_) => {},
            Err(e) => return Err(e),
        }
        let player = match get_opt_text(j, "player") {
            Ok(x) => x,
            Err(e) => return Err(e),
        };
        let request_now_playing = match get_opt_bool(j, "requestNowPlaying") {
            Ok(x) => x,
            Err(e) => return Err(e),
        };
        let request_player_list = match get_opt_bool(j, "requestPlayerList") {
            Ok(x) => x,
            Err(e) => return Err(e),
        };
        let request_volume = match get_opt_bool(j, "requestVolume") {
            Ok(x) => x,
            Err(e) => return Err(e),
        };
        let seek = match get_opt_number(j, "Seek") {
            Ok(x) => x,
            Err(e) => return Err(e),
        };
        let set_loop_status = match get_opt_word::<LoopType>(j, "setLoopStatus") {
            Ok(x) => x,
            Err(e) => return Err(e),
        };
        let set_position = match get_opt_number(j, "setPosition") {
            Ok(x) => x,
            Err(e) => return Err(e),
        };
        let set_shuffle = match get_opt_bool(j, "setShuffle") {
            Ok(x) => x,
            Err(e) => return Err(e),
        };
        let set_volume = match get_opt_bool(j, "setVolume") {
            Ok(x) => x,
            Err(e) => return Err(e),
        };
        let action = match get_word::<MprisAction>(j, "action") {
            Ok(x) => x,
            Err(e) => return Err(e),
        };
        let names: Vec<String> = vec![
            "player".to_owned(),
            "requestNowPlaying".to_owned(),
            "requestPlayerList".to_owned(),
            "requestVolume".to_owned(),
            "Seek".to_owned(),
            "setLoopStatus".to_owned(),
            "setPosition".to_owned(),
            "setShuffle".to_owned(),
            "setVolume".to_owned(),
            "action".to_owned(),
        ];
        assert(names_of(names@) =~= Self::declared()) by {
            assert(names@[0]@ == "player"@);
            assert(names@[1]@ == "requestNowPlaying"@);
            assert(names@[2]@ == "requestPlayerList"@);
            assert(names@[3]@ == "requestVolume"@);
            assert(names@[4]@ == "Seek"@);
            assert(names@[5]@ == "setLoopStatus"@);
            assert(names@[6]@ == "setPosition"@);
            assert(names@[7]@ == "setShuffle"@);
            assert(names@[8]@ == "setVolume"@);
            assert(names@[9]@ == "action"@);
        }
        match j.first_besides(&names) {
            Some(key) => return Err(key),
            None => {},
        }
        Ok(
            MprisRequest {
                player,
                request_now_playing,
                request_player_list,
                request_volume,
                seek,
                set_loop_status,
                set_position,
                set_shuffle,
                set_volume,
                action,
            },
        )
    }

    proof fn lemma_round_trip(v: MprisRequestView) {
        broadcast use {
            group_lookup,
            group_field_laws,
            group_shape_laws,
            vstd::string::group_string_axioms,
        };
        reveal_strlit("player");
        reveal_strlit("requestNowPlaying");
        reveal_strlit("requestPlayerList");
        reveal_strlit("requestVolume");
        reveal_strlit("Seek");
        reveal_strlit("setLoopStatus");
        reveal_strlit("setPosition");
        reveal_strlit("setShuffle");
        reveal_strlit("setVolume");
        reveal_strlit("action");
        let j = Self::wire(v);
        assert(opt_text(j, "player"@) == Ok::<Option<Seq<char>>, Seq<char>>(v.player));
        assert(opt_bool(j, "requestNowPlaying"@) == Ok::<Option<bool>, Seq<char>>(
            v.request_now_playing,
        ));
        assert(opt_bool(j, "requestPlayerList"@) == Ok::<Option<bool>, Seq<char>>(
            v.request_player_list,
        ));
        assert(opt_bool(j, "requestVolume"@) == Ok::<Option<bool>, Seq<char>>(v.request_volume));
        assert(opt_number(j, "Seek"@) == Ok::<Option<Seq<char>>, Seq<char>>(v.seek));
        assert(opt_word::<LoopType>(j, "setLoopStatus"@) == Ok::<Option<LoopType>, Seq<char>>(
            v.set_loop_status,
        ));
        assert(opt_number(j, "setPosition"@) == Ok::<Option<Seq<char>>, Seq<char>>(v.set_position));
        assert(opt_bool(j, "setShuffle"@) == Ok::<Option<bool>, Seq<char>>(v.set_shuffle));
        assert(opt_bool(j, "setVolume"@) == Ok::<Option<bool>, Seq<char>>(v.set_volume));
        assert(req_word::<MprisAction>(j, "action"@) == Ok::<MprisAction, Seq<char>>(v.action));
        assert(undeclared(j, Self::declared()) is None);
    }

    proof fn lemma_wire_wf(v: MprisRequestView) {
        broadcast use {group_wf_laws, group_shape_wf_laws, vstd::string::group_string_axioms};
        reveal_strlit("player");
        reveal_strlit("requestNowPlaying");
        reveal_strlit("requestPlayerList");
        reveal_strlit("requestVolume");
        reveal_strlit("Seek");
        reveal_strlit("setLoopStatus");
        reveal_strlit("setPosition");
        reveal_strlit("setShuffle");
        reveal_strlit("setVolume");
        reveal_strlit("action");
        let ms = Self::wire(v)->Object_0;
        assert(ms.len() == 10);
        assert(ms[0].key == "player"@ && key_mark(ms[0].key).0 == 6);
        assert(ms[1].key == "requestNowPlaying"@ && key_mark(ms[1].key).0 == 17);
        assert(ms[2].key == "requestPlayerList"@ && key_mark(ms[2].key).0 == 17);
        assert(ms[3].key == "requestVolume"@ && key_mark(ms[3].key).0 == 13);
        assert(ms[4].key == "Seek"@ && key_mark(ms[4].key).0 == 4);
        assert(ms[5].key == "setLoopStatus"@ && key_mark(ms[5].key).0 == 13);
        assert(ms[6].key == "setPosition"@ && key_mark(ms[6].key).0 == 11);
        assert(ms[7].key == "setShuffle"@ && key_mark(ms[7].key).0 == 10);
        assert(ms[8].key == "setVolume"@ && key_mark(ms[8].key).0 == 9);
        assert(ms[9].key == "action"@ && key_mark(ms[9].key).0 == 6);
        assert(distinct_keys(ms));
        assert(ms[0].value.wf());
        assert(ms[1].value.wf());
        assert(ms[2].value.wf());
        assert(ms[3].value.wf());
        assert(ms[4].value.wf() == opt_literal(v.seek));
        assert(ms[5].value.wf());
        assert(ms[6].value.wf() == opt_literal(v.set_position));
        assert(ms[7].value.wf());
        assert(ms[8].value.wf());
        assert(ms[9].value.wf());
    }

    proof fn lemma_unfit_is_refused(j: JsonModel) {
        broadcast use group_shape_refusals;
        lemma_undeclared(j, Self::declared());
    }
}

} // verus!
