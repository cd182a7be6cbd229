use quartz::audio::Track;
use quartz::station::streamer::response_headers;
use quartz::controller::queue::{Queue, MINIMUM_IN_QUEUE};
use quartz::schedule::Schedule;

/// Names the tracks "1", "2", "3" and so on.
struct Numbered(u32);

impl Schedule for Numbered {
    fn ready(&self) -> bool {
        true
    }

    fn next(&mut self) -> Track {
        self.0 += 1;
        Track {
            title: Some(self.0.to_string()),
            subtitle: None,
            author: None,
            source_url: None,
            background_url: None,
            audio_url: format!("https://example.org/{}.mp3", self.0),
        }
    }
}

fn title(track: &Track) -> String {
    track.title.clone().unwrap()
}

#[test]
fn new_queue_is_empty() {
    let queue = Queue::new(Numbered(0));
    assert!(queue.current().is_none());
    assert_eq!(MINIMUM_IN_QUEUE, 2);
}

#[test]
fn skip_tops_the_queue_up_and_takes_the_first() {
    let mut queue = Queue::new(Numbered(0));
    assert_eq!(title(&queue.skip()), "1");
    assert_eq!(title(queue.current().unwrap()), "2");
    assert_eq!(title(&queue.skip()), "2");
    assert_eq!(title(&queue.skip()), "3");
    assert_eq!(title(queue.current().unwrap()), "4");
}

#[test]
fn skip_leaves_the_minimum_in_the_queue() {
    let mut queue = Queue::new(Numbered(0));
    queue.skip();
    // "2" and "3" are left
    assert_eq!(title(&queue.remove(1).unwrap()), "3");
    assert!(queue.remove(1).is_none());
    assert_eq!(title(&queue.remove(0).unwrap()), "2");
    assert!(queue.remove(0).is_none());
    assert!(queue.current().is_none());
}

#[test]
fn remove_takes_one_track_out_and_keeps_the_rest() {
    let mut queue = Queue::new(Numbered(0));
    queue.skip();
    assert!(queue.remove(2).is_none());
    assert_eq!(title(&queue.remove(0).unwrap()), "2");
    assert_eq!(title(queue.current().unwrap()), "3");
    // one track left: the next skip asks the schedule for two more
    assert_eq!(title(&queue.skip()), "3");
    assert_eq!(title(&queue.skip()), "4");
    assert_eq!(title(&queue.skip()), "5");
}

#[test]
fn stream_response_disables_caching_and_permits_cross_origin_reads() {
    let headers = response_headers();
    assert_eq!(
        headers,
        vec![
            ("Content-Type", "audio/ogg"),
            ("Access-Control-Allow-Origin", "*"),
            ("Connection", "close"),
            ("Cache-Control", "no-cache, no-store"),
            ("Pragma", "no-cache"),
            ("Expires", "0"),
        ]
    );
}
