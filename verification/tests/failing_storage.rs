use botdispatch::dialogue::{Dialogue, Storage};

#[derive(Debug, PartialEq, Eq)]
struct Offline;

/// A backend that holds one record at most and can be switched off.
struct Flaky {
    online: bool,
    record: Option<(i64, u8)>,
}

impl Storage<u8> for Flaky {
    type Error = Offline;

    fn get_dialogue(&self, chat_id: i64) -> Result<Option<u8>, Offline> {
        if !self.online {
            return Err(Offline);
        }
        Ok(self.record.filter(|(id, _)| *id == chat_id).map(|(_, state)| state))
    }

    fn update_dialogue(&mut self, chat_id: i64, dialogue: u8) -> Result<(), Offline> {
        if !self.online {
            return Err(Offline);
        }
        self.record = Some((chat_id, dialogue));
        Ok(())
    }

    fn remove_dialogue(&mut self, chat_id: i64) -> Result<(), Offline> {
        if !self.online {
            return Err(Offline);
        }
        if self.record.map(|(id, _)| id) == Some(chat_id) {
            self.record = None;
        }
        Ok(())
    }
}

#[test]
fn backend_errors_reach_the_caller() {
    let mut dialogue: Dialogue<u8, Flaky> = Dialogue::new(Flaky { online: false, record: None }, 42);
    assert_eq!(dialogue.get(), Err(Offline));
    assert_eq!(dialogue.get_or_default(), Err(Offline));
    assert_eq!(dialogue.update(3u8), Err(Offline));
    assert_eq!(dialogue.reset(), Err(Offline));
    assert_eq!(dialogue.exit(), Err(Offline));
    let storage = dialogue.into_storage();
    assert_eq!(storage.record, None);
}

#[test]
fn failed_write_leaves_the_record_alone() {
    let mut dialogue: Dialogue<u8, Flaky> = Dialogue::new(Flaky { online: true, record: None }, 42);
    assert_eq!(dialogue.get_or_default(), Ok(0));
    assert_eq!(dialogue.update(9u8), Ok(()));
    let mut storage = dialogue.into_storage();
    storage.online = false;
    let mut dialogue: Dialogue<u8, Flaky> = Dialogue::new(storage, 42);
    assert_eq!(dialogue.update(1u8), Err(Offline));
    assert_eq!(dialogue.exit(), Err(Offline));
    let mut storage = dialogue.into_storage();
    storage.online = true;
    assert_eq!(storage.get_dialogue(42), Ok(Some(9)));
}
