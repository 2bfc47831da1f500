# navitia_model

A verified library for a transit data model and its GTFS export.

- `src/collection.rs`: collections of objects, and collections whose objects carry pairwise
  distinct identifiers, with lookup by identifier and by position.
- `src/objects.rs`: the objects of the model (networks, stop areas, stop points, routes, trip
  properties, vehicle journeys, stop times, dates, times) and the prefixing of identifiers.
- `src/gtfs/`: the GTFS rows (agencies, stops, trips) and how they are built from the model.
- `src/utils.rs`: the readers and writers of boolean, date and optional fields, and the
  prefixing of whole collections.
- `app/`: reading the collections from CSV files, writing the GTFS files, and the serde field
  adapters, around the library.
